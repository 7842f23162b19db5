//! How a record's primary key is derived, and how that description crosses
//! over to the host's values and back.

use vstd::pervasive::unreached;
use vstd::prelude::*;
use std::cmp::Ordering;
use vstd::std_specs::cmp::{PartialEqSpecImpl, PartialOrdSpecImpl};
use vstd::std_specs::convert::FromSpecImpl;
use crate::host::{elements_view, HostElement, HostElementView, HostValue, HostValueView};
use crate::names::{clone_names, same_names};
use crate::order::{
    compare_text, compare_texts, lemma_text_order_is_strict, lemma_text_order_is_transitive,
    lemma_texts_order_is_strict, lemma_texts_order_is_transitive, text_order, texts_order,
    Precedence,
};

verus! {

/// The path to the primary key of the records of an object store.
#[derive(Debug, Eq, Ord)]
pub enum KeyPath {
    /// No path: keys are out of line, supplied beside the record when it is
    /// inserted.
    OutOfLine,
    /// The key is the attribute at this path.
    Single(String),
    /// The key is composed of the attributes at these paths, in this order.
    Multi(Vec<String>),
}

/// The mathematical content of a [`KeyPath`].
pub enum KeyPathView {
    OutOfLine,
    Single(Seq<char>),
    Multi(Seq<Seq<char>>),
}

impl KeyPathView {
    /// Whether this describes a key: a composed path has at least one part.
    pub open spec fn wf(self) -> bool {
        self matches KeyPathView::Multi(ps) ==> ps.len() >= 1
    }
}

impl View for KeyPath {
    type V = KeyPathView;

    open spec fn view(&self) -> KeyPathView {
        match *self {
            KeyPath::OutOfLine => KeyPathView::OutOfLine,
            KeyPath::Single(p) => KeyPathView::Single(p@),
            KeyPath::Multi(ps) => KeyPathView::Multi(ps.deep_view()),
        }
    }
}

/// The elements of the host array that holds these strings.
pub open spec fn elements_of<T>(paths: Seq<Seq<char>>) -> Seq<HostElementView<T>> {
    Seq::new(paths.len(), |i: int| HostElementView::Text(paths[i]))
}

/// Whether every element of a host array is a string.
pub open spec fn all_text<T>(elements: Seq<HostElementView<T>>) -> bool {
    forall|i: int| 0 <= i < elements.len() ==> elements[i] is Text
}

/// The strings that a host array of strings holds.
pub open spec fn texts_of<T>(elements: Seq<HostElementView<T>>) -> Seq<Seq<char>> {
    Seq::new(elements.len(), |i: int| elements[i]->Text_0)
}

/// The host value that stands for a key path: `null` for none, a string for
/// a single path, an array of strings for a composed one.
pub open spec fn host_of<T>(key_path: KeyPathView) -> HostValueView<T> {
    match key_path {
        KeyPathView::OutOfLine => HostValueView::Null,
        KeyPathView::Single(p) => HostValueView::Text(p),
        KeyPathView::Multi(ps) => HostValueView::Array(elements_of(ps)),
    }
}

/// The key path that a host value stands for, if it stands for one: the two
/// empty values, a string and an array of strings do, and nothing else does.
pub open spec fn key_path_of<T>(value: HostValueView<T>) -> Option<KeyPathView> {
    match value {
        HostValueView::Undefined => Some(KeyPathView::OutOfLine),
        HostValueView::Null => Some(KeyPathView::OutOfLine),
        HostValueView::Text(p) => Some(KeyPathView::Single(p)),
        HostValueView::Array(elements) => if all_text(elements) {
            Some(KeyPathView::Multi(texts_of(elements)))
        } else {
            None
        },
        HostValueView::Other(_) => None,
    }
}

impl Clone for KeyPath {
    fn clone(&self) -> (copy: KeyPath)
        ensures
            copy@ == self@,
    {
        match self {
            KeyPath::OutOfLine => KeyPath::OutOfLine,
            KeyPath::Single(p) => KeyPath::Single(p.clone()),
            KeyPath::Multi(ps) => KeyPath::Multi(clone_names(ps)),
        }
    }
}

impl PartialEq for KeyPath {
    fn eq(&self, other: &KeyPath) -> (equal: bool) {
        match self {
            KeyPath::OutOfLine => match other {
                KeyPath::OutOfLine => true,
                _ => false,
            },
            KeyPath::Single(p) => match other {
                KeyPath::Single(q) => *p == *q,
                _ => false,
            },
            KeyPath::Multi(ps) => match other {
                KeyPath::Multi(qs) => same_names(ps, qs),
                _ => false,
            },
        }
    }
}

impl PartialEqSpecImpl for KeyPath {
    open spec fn obeys_eq_spec() -> bool {
        true
    }

    open spec fn eq_spec(&self, other: &KeyPath) -> bool {
        self@ == other@
    }
}

/// The order of key paths: no path comes first, then the single paths in the
/// order of strings, then the composed paths in the order of lists.
pub open spec fn key_path_order(a: KeyPathView, b: KeyPathView) -> Precedence {
    match a {
        KeyPathView::OutOfLine => match b {
            KeyPathView::OutOfLine => Precedence::Same,
            _ => Precedence::Before,
        },
        KeyPathView::Single(p) => match b {
            KeyPathView::OutOfLine => Precedence::After,
            KeyPathView::Single(q) => text_order(p, q),
            KeyPathView::Multi(_) => Precedence::Before,
        },
        KeyPathView::Multi(ps) => match b {
            KeyPathView::Multi(qs) => texts_order(ps, qs),
            _ => Precedence::After,
        },
    }
}

/// The order of key paths goes with their equality: two key paths do not
/// differ in the order exactly when they are equal, and the order of the two
/// is the same from either side.
pub proof fn lemma_key_path_order_is_strict(a: KeyPathView, b: KeyPathView)
    ensures
        key_path_order(a, b) == Precedence::Same <==> a == b,
        key_path_order(b, a) == key_path_order(a, b).flip(),
{
    match (a, b) {
        (KeyPathView::Single(p), KeyPathView::Single(q)) => {
            lemma_text_order_is_strict(p, q);
        },
        (KeyPathView::Multi(ps), KeyPathView::Multi(qs)) => {
            lemma_texts_order_is_strict(ps, qs);
        },
        _ => {},
    }
}

/// The order of key paths is transitive.
pub proof fn lemma_key_path_order_is_transitive(a: KeyPathView, b: KeyPathView, c: KeyPathView)
    requires
        key_path_order(a, b) != Precedence::After,
        key_path_order(b, c) != Precedence::After,
    ensures
        key_path_order(a, c) != Precedence::After,
{
    match (a, b, c) {
        (KeyPathView::Single(p), KeyPathView::Single(q), KeyPathView::Single(r)) => {
            lemma_text_order_is_transitive(p, q, r);
        },
        (KeyPathView::Multi(ps), KeyPathView::Multi(qs), KeyPathView::Multi(rs)) => {
            lemma_texts_order_is_transitive(ps, qs, rs);
        },
        _ => {},
    }
}

impl PartialOrd for KeyPath {
    fn partial_cmp(&self, other: &KeyPath) -> (order: Option<Ordering>) {
        match self.precedence(other) {
            Precedence::Before => Some(Ordering::Less),
            Precedence::Same => Some(Ordering::Equal),
            Precedence::After => Some(Ordering::Greater),
        }
    }
}

impl PartialOrdSpecImpl for KeyPath {
    open spec fn obeys_partial_cmp_spec() -> bool {
        true
    }

    open spec fn partial_cmp_spec(&self, other: &KeyPath) -> Option<Ordering> {
        match key_path_order(self@, other@) {
            Precedence::Before => Some(Ordering::Less),
            Precedence::Same => Some(Ordering::Equal),
            Precedence::After => Some(Ordering::Greater),
        }
    }
}

impl KeyPath {
    /// Whether this describes a key: a composed path has at least one part.
    pub fn is_well_formed(&self) -> (valid: bool)
        ensures
            valid == self@.wf(),
    {
        match self {
            KeyPath::Multi(ps) => {
                assert(ps.deep_view().len() == ps.len());
                ps.len() >= 1
            },
            _ => true,
        }
    }

    /// How this key path stands to another in the order of key paths.
    pub fn precedence(&self, other: &KeyPath) -> (order: Precedence)
        ensures
            order == key_path_order(self@, other@),
    {
        match self {
            KeyPath::OutOfLine => match other {
                KeyPath::OutOfLine => Precedence::Same,
                _ => Precedence::Before,
            },
            KeyPath::Single(p) => match other {
                KeyPath::OutOfLine => Precedence::After,
                KeyPath::Single(q) => compare_text(p.as_str(), q.as_str()),
                KeyPath::Multi(_) => Precedence::Before,
            },
            KeyPath::Multi(ps) => match other {
                KeyPath::Multi(qs) => compare_texts(ps, qs),
                _ => Precedence::After,
            },
        }
    }

    /// The host value that stands for this key path.
    pub fn into_host<T>(self) -> (value: HostValue<T>)
        ensures
            value@ == host_of::<T>(self@),
    {
        match self {
            KeyPath::OutOfLine => HostValue::Null,
            KeyPath::Single(p) => HostValue::Text(p),
            KeyPath::Multi(ps) => {
                let mut elements: Vec<HostElement<T>> = Vec::new();
                let mut i: usize = 0;
                while i < ps.len()
                    invariant
                        i <= ps.len(),
                        elements.len() == i,
                        forall|j: int|
                            0 <= j < i ==> elements[j]@ == HostElementView::<T>::Text(ps[j]@),
                    decreases ps.len() - i,
                {
                    elements.push(HostElement::Text(ps[i].clone()));
                    i += 1;
                }
                assert(elements_view(elements@) =~= elements_of::<T>(ps.deep_view()));
                HostValue::Array(elements)
            },
        }
    }

    /// The key path that a host value stands for.
    ///
    /// The value must stand for one: a value of another shape than the two
    /// empty values, a string and an array, or an array with an element that
    /// is no string, must not be handed in.
    pub fn from_host<T>(value: HostValue<T>) -> (key_path: KeyPath)
        requires
            key_path_of(value@) is Some,
        ensures
            key_path_of(value@) == Some(key_path@),
    {
        match value {
            HostValue::Undefined => KeyPath::OutOfLine,
            HostValue::Null => KeyPath::OutOfLine,
            HostValue::Text(p) => KeyPath::Single(p),
            HostValue::Array(elements) => {
                let mut out: Vec<String> = Vec::new();
                let mut i: usize = 0;
                while i < elements.len()
                    invariant
                        i <= elements.len(),
                        out.len() == i,
                        all_text(elements_view(elements@)),
                        forall|j: int|
                            0 <= j < i ==> elements[j]@ == HostElementView::<T>::Text(out[j]@),
                    decreases elements.len() - i,
                {
                    assert(elements_view(elements@)[i as int] is Text);
                    match &elements[i] {
                        HostElement::Text(val) => {
                            out.push(val.clone());
                        },
                        HostElement::Other(_) => {
                            assert(false);
                        },
                    }
                    i += 1;
                }
                assert(out.deep_view() =~= texts_of(elements_view(elements@)));
                KeyPath::Multi(out)
            },
            HostValue::Other(_) => unreached(),
        }
    }
}

impl<T> HostValue<T> {
    /// Whether this value stands for a key path.
    pub fn is_key_path(&self) -> (b: bool)
        ensures
            b == key_path_of(self@) is Some,
    {
        match self {
            HostValue::Array(elements) => {
                let mut i: usize = 0;
                while i < elements.len()
                    invariant
                        i <= elements.len(),
                        self@ == HostValueView::Array(elements_view(elements@)),
                        forall|j: int| 0 <= j < i ==> elements[j]@ is Text,
                    decreases elements.len() - i,
                {
                    match &elements[i] {
                        HostElement::Text(_) => {},
                        HostElement::Other(_) => {
                            assert(!all_text(elements_view(elements@))) by {
                                let views = elements_view(elements@);
                                assert(0 <= i < views.len() && !(views[i as int] is Text));
                            }
                            return false;
                        },
                    }
                    i += 1;
                }
                assert(all_text(elements_view(elements@)));
                true
            },
            HostValue::Other(_) => false,
            _ => true,
        }
    }
}

/// A key path survives the way to the host's values and back, whichever of
/// the three kinds it is of.
pub proof fn lemma_key_path_round_trip<T>(key_path: KeyPathView)
    ensures
        key_path_of(host_of::<T>(key_path)) == Some(key_path),
{
    if let KeyPathView::Multi(ps) = key_path {
        assert(all_text(elements_of::<T>(ps)));
        assert(texts_of(elements_of::<T>(ps)) =~= ps);
    }
}

/// A host value that stands for a key path is the one that the key path is
/// turned into, but for `undefined`, which comes back as `null`.
pub proof fn lemma_host_value_round_trip<T>(value: HostValueView<T>)
    requires
        key_path_of(value) is Some,
        !(value is Undefined),
    ensures
        host_of::<T>(key_path_of(value)->Some_0) == value,
{
    if let HostValueView::Array(elements) = value {
        assert(elements_of::<T>(texts_of(elements)) =~= elements);
    }
}

impl From<String> for KeyPath {
    fn from(inner: String) -> (key_path: KeyPath) {
        KeyPath::Single(inner)
    }
}

impl FromSpecImpl<String> for KeyPath {
    open spec fn obeys_from_spec() -> bool {
        true
    }

    open spec fn from_spec(inner: String) -> KeyPath {
        KeyPath::Single(inner)
    }
}

impl From<Vec<String>> for KeyPath {
    fn from(inner: Vec<String>) -> (key_path: KeyPath) {
        KeyPath::Multi(inner)
    }
}

impl FromSpecImpl<Vec<String>> for KeyPath {
    open spec fn obeys_from_spec() -> bool {
        true
    }

    open spec fn from_spec(inner: Vec<String>) -> KeyPath {
        KeyPath::Multi(inner)
    }
}

impl From<()> for KeyPath {
    fn from(empty: ()) -> (key_path: KeyPath) {
        KeyPath::OutOfLine
    }
}

impl FromSpecImpl<()> for KeyPath {
    open spec fn obeys_from_spec() -> bool {
        true
    }

    open spec fn from_spec(empty: ()) -> KeyPath {
        KeyPath::OutOfLine
    }
}

impl KeyPath {
    /// The key path of a single attribute.
    pub fn single(path: &str) -> (key_path: KeyPath)
        ensures
            key_path@ == KeyPathView::Single(path@),
    {
        KeyPath::Single(path.to_owned())
    }

    /// The key path that is composed of these attributes, in this order.
    pub fn multi(paths: &[&str]) -> (key_path: KeyPath)
        ensures
            key_path@ == KeyPathView::Multi(Seq::new(paths@.len(), |i: int| paths@[i]@)),
    {
        let mut owned: Vec<String> = Vec::new();
        let mut i: usize = 0;
        while i < paths.len()
            invariant
                i <= paths.len(),
                owned.len() == i,
                forall|j: int| 0 <= j < i ==> owned[j]@ == paths@[j]@,
            decreases paths.len() - i,
        {
            owned.push(paths[i].to_owned());
            i += 1;
        }
        assert(owned.deep_view() =~= Seq::new(paths@.len(), |i: int| paths@[i]@));
        KeyPath::Multi(owned)
    }
}

impl<'a> From<&'a str> for KeyPath {
    fn from(inner: &'a str) -> (key_path: KeyPath) {
        KeyPath::single(inner)
    }
}

impl<'a> FromSpecImpl<&'a str> for KeyPath {
    open spec fn obeys_from_spec() -> bool {
        false
    }

    open spec fn from_spec(inner: &'a str) -> KeyPath {
        KeyPath::OutOfLine
    }
}

} // verus!
