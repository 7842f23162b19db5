//! The order of strings and of lists of strings: by bytes, and by position.

use vstd::prelude::*;
use vstd::utf8::encode_utf8;

verus! {

/// How one value stands to another in an order.
#[derive(Debug, Clone, Copy, PartialEq, Eq, Structural)]
pub enum Precedence {
    /// The first comes before the second.
    Before,
    /// Neither comes before the other.
    Same,
    /// The first comes after the second.
    After,
}

/// The order of two runs of bytes: the first byte in which they differ
/// decides, and a run comes after every proper prefix of it.
pub open spec fn bytes_order(a: Seq<u8>, b: Seq<u8>) -> Precedence
    decreases a.len(),
{
    if a.len() == 0 {
        if b.len() == 0 {
            Precedence::Same
        } else {
            Precedence::Before
        }
    } else if b.len() == 0 {
        Precedence::After
    } else if a[0] < b[0] {
        Precedence::Before
    } else if a[0] > b[0] {
        Precedence::After
    } else {
        bytes_order(a.drop_first(), b.drop_first())
    }
}

/// The order of two strings: that of their bytes in UTF-8.
pub open spec fn text_order(a: Seq<char>, b: Seq<char>) -> Precedence {
    bytes_order(encode_utf8(a), encode_utf8(b))
}

/// The order of two lists of strings: the first place in which they differ
/// decides, and a list comes after every proper prefix of it.
pub open spec fn texts_order(a: Seq<Seq<char>>, b: Seq<Seq<char>>) -> Precedence
    decreases a.len(),
{
    if a.len() == 0 {
        if b.len() == 0 {
            Precedence::Same
        } else {
            Precedence::Before
        }
    } else if b.len() == 0 {
        Precedence::After
    } else if text_order(a[0], b[0]) != Precedence::Same {
        text_order(a[0], b[0])
    } else {
        texts_order(a.drop_first(), b.drop_first())
    }
}

/// Bytes that are the same in both runs do not decide the order.
proof fn lemma_bytes_order_skips_common_prefix(a: Seq<u8>, b: Seq<u8>, n: int)
    requires
        0 <= n <= a.len(),
        n <= b.len(),
        forall|j: int| 0 <= j < n ==> a[j] == b[j],
    ensures
        bytes_order(a, b) == bytes_order(a.skip(n), b.skip(n)),
    decreases n,
{
    if n == 0 {
        assert(a.skip(0) =~= a);
        assert(b.skip(0) =~= b);
    } else {
        lemma_bytes_order_skips_common_prefix(a, b, n - 1);
        let x = a.skip(n - 1);
        let y = b.skip(n - 1);
        assert(x[0] == a[n - 1]);
        assert(y[0] == b[n - 1]);
        assert(x.drop_first() =~= a.skip(n));
        assert(y.drop_first() =~= b.skip(n));
    }
}

/// Strings that stand in the same place and do not differ in the order do not
/// decide the order of the lists.
proof fn lemma_texts_order_skips_common_prefix(a: Seq<Seq<char>>, b: Seq<Seq<char>>, n: int)
    requires
        0 <= n <= a.len(),
        n <= b.len(),
        forall|j: int| 0 <= j < n ==> text_order(a[j], b[j]) == Precedence::Same,
    ensures
        texts_order(a, b) == texts_order(a.skip(n), b.skip(n)),
    decreases n,
{
    if n == 0 {
        assert(a.skip(0) =~= a);
        assert(b.skip(0) =~= b);
    } else {
        lemma_texts_order_skips_common_prefix(a, b, n - 1);
        let x = a.skip(n - 1);
        let y = b.skip(n - 1);
        assert(x[0] == a[n - 1]);
        assert(y[0] == b[n - 1]);
        assert(x.drop_first() =~= a.skip(n));
        assert(y.drop_first() =~= b.skip(n));
    }
}

impl Precedence {
    /// The same relation, seen from the other side.
    pub open spec fn flip(self) -> Precedence {
        match self {
            Precedence::Before => Precedence::After,
            Precedence::Same => Precedence::Same,
            Precedence::After => Precedence::Before,
        }
    }
}

/// Two runs of bytes do not differ in the order exactly when they are equal,
/// and the order of the two is the same from either side.
pub proof fn lemma_bytes_order_is_strict(a: Seq<u8>, b: Seq<u8>)
    ensures
        bytes_order(a, b) == Precedence::Same <==> a == b,
        bytes_order(b, a) == bytes_order(a, b).flip(),
    decreases a.len(),
{
    if a.len() > 0 && b.len() > 0 {
        lemma_bytes_order_is_strict(a.drop_first(), b.drop_first());
        if a[0] == b[0] && a.drop_first() == b.drop_first() {
            assert(a =~= seq![a[0]] + a.drop_first());
            assert(b =~= seq![b[0]] + b.drop_first());
        }
    } else if a.len() == 0 && b.len() == 0 {
        assert(a =~= b);
    }
}

/// Two strings do not differ in the order exactly when they are equal, and
/// the order of the two is the same from either side.
pub proof fn lemma_text_order_is_strict(a: Seq<char>, b: Seq<char>)
    ensures
        text_order(a, b) == Precedence::Same <==> a == b,
        text_order(b, a) == text_order(a, b).flip(),
{
    lemma_bytes_order_is_strict(encode_utf8(a), encode_utf8(b));
    vstd::utf8::encode_utf8_decode_utf8(a);
    vstd::utf8::encode_utf8_decode_utf8(b);
}

/// Two lists of strings do not differ in the order exactly when they are
/// equal, and the order of the two is the same from either side.
pub proof fn lemma_texts_order_is_strict(a: Seq<Seq<char>>, b: Seq<Seq<char>>)
    ensures
        texts_order(a, b) == Precedence::Same <==> a == b,
        texts_order(b, a) == texts_order(a, b).flip(),
    decreases a.len(),
{
    if a.len() > 0 && b.len() > 0 {
        lemma_text_order_is_strict(a[0], b[0]);
        lemma_texts_order_is_strict(a.drop_first(), b.drop_first());
        if a[0] == b[0] && a.drop_first() == b.drop_first() {
            assert(a =~= seq![a[0]] + a.drop_first());
            assert(b =~= seq![b[0]] + b.drop_first());
        }
    } else if a.len() == 0 && b.len() == 0 {
        assert(a =~= b);
    }
}

/// The order of runs of bytes is transitive.
pub proof fn lemma_bytes_order_is_transitive(a: Seq<u8>, b: Seq<u8>, c: Seq<u8>)
    requires
        bytes_order(a, b) != Precedence::After,
        bytes_order(b, c) != Precedence::After,
    ensures
        bytes_order(a, c) != Precedence::After,
        bytes_order(a, c) == Precedence::Same ==> bytes_order(a, b) == Precedence::Same
            && bytes_order(b, c) == Precedence::Same,
    decreases a.len(),
{
    if a.len() > 0 && b.len() > 0 && c.len() > 0 {
        if a[0] == b[0] && b[0] == c[0] {
            lemma_bytes_order_is_transitive(a.drop_first(), b.drop_first(), c.drop_first());
        }
    }
}

/// The order of strings is transitive.
pub proof fn lemma_text_order_is_transitive(a: Seq<char>, b: Seq<char>, c: Seq<char>)
    requires
        text_order(a, b) != Precedence::After,
        text_order(b, c) != Precedence::After,
    ensures
        text_order(a, c) != Precedence::After,
        text_order(a, c) == Precedence::Same ==> text_order(a, b) == Precedence::Same
            && text_order(b, c) == Precedence::Same,
{
    lemma_bytes_order_is_transitive(encode_utf8(a), encode_utf8(b), encode_utf8(c));
}

/// The order of lists of strings is transitive.
pub proof fn lemma_texts_order_is_transitive(
    a: Seq<Seq<char>>,
    b: Seq<Seq<char>>,
    c: Seq<Seq<char>>,
)
    requires
        texts_order(a, b) != Precedence::After,
        texts_order(b, c) != Precedence::After,
    ensures
        texts_order(a, c) != Precedence::After,
        texts_order(a, c) == Precedence::Same ==> texts_order(a, b) == Precedence::Same
            && texts_order(b, c) == Precedence::Same,
    decreases a.len(),
{
    if a.len() > 0 && b.len() > 0 && c.len() > 0 {
        lemma_text_order_is_transitive(a[0], b[0], c[0]);
        lemma_text_order_is_strict(a[0], b[0]);
        lemma_text_order_is_strict(b[0], c[0]);
        lemma_text_order_is_strict(a[0], c[0]);
        if text_order(a[0], b[0]) == Precedence::Same && text_order(b[0], c[0])
            == Precedence::Same {
            lemma_texts_order_is_transitive(a.drop_first(), b.drop_first(), c.drop_first());
        }
    }
}

/// The order of two runs of bytes.
pub fn compare_bytes(a: &[u8], b: &[u8]) -> (order: Precedence)
    ensures
        order == bytes_order(a@, b@),
{
    let mut i: usize = 0;
    while i < a.len() && i < b.len()
        invariant
            i <= a.len(),
            i <= b.len(),
            forall|j: int| 0 <= j < i ==> a@[j] == b@[j],
        decreases a.len() - i,
    {
        if a[i] < b[i] {
            proof {
                lemma_bytes_order_skips_common_prefix(a@, b@, i as int);
                assert(a@.skip(i as int)[0] == a@[i as int]);
                assert(b@.skip(i as int)[0] == b@[i as int]);
            }
            return Precedence::Before;
        }
        if a[i] > b[i] {
            proof {
                lemma_bytes_order_skips_common_prefix(a@, b@, i as int);
                assert(a@.skip(i as int)[0] == a@[i as int]);
                assert(b@.skip(i as int)[0] == b@[i as int]);
            }
            return Precedence::After;
        }
        i += 1;
    }
    proof {
        lemma_bytes_order_skips_common_prefix(a@, b@, i as int);
    }
    if i < b.len() {
        Precedence::Before
    } else if i < a.len() {
        Precedence::After
    } else {
        Precedence::Same
    }
}

/// The order of two strings.
pub fn compare_text(a: &str, b: &str) -> (order: Precedence)
    ensures
        order == text_order(a@, b@),
{
    compare_bytes(a.as_bytes(), b.as_bytes())
}

/// The order of two lists of strings.
pub fn compare_texts(a: &Vec<String>, b: &Vec<String>) -> (order: Precedence)
    ensures
        order == texts_order(a.deep_view(), b.deep_view()),
{
    let mut i: usize = 0;
    while i < a.len() && i < b.len()
        invariant
            i <= a.len(),
            i <= b.len(),
            forall|j: int|
                0 <= j < i ==> text_order(a.deep_view()[j], b.deep_view()[j]) == Precedence::Same,
        decreases a.len() - i,
    {
        let here = compare_text(a[i].as_str(), b[i].as_str());
        match here {
            Precedence::Same => {},
            _ => {
                proof {
                    let x = a.deep_view();
                    let y = b.deep_view();
                    lemma_texts_order_skips_common_prefix(x, y, i as int);
                    assert(x.skip(i as int)[0] == x[i as int]);
                    assert(y.skip(i as int)[0] == y[i as int]);
                }
                return here;
            },
        }
        i += 1;
    }
    proof {
        lemma_texts_order_skips_common_prefix(a.deep_view(), b.deep_view(), i as int);
    }
    if i < b.len() {
        Precedence::Before
    } else if i < a.len() {
        Precedence::After
    } else {
        Precedence::Same
    }
}

} // verus!
