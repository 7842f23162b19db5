[package]
name = "indexeddb"
version = "0.1.0"
edition = "2021"
publish = false

[dependencies]
console_error_panic_hook = "*"
console-web = "*"
futures = "*"
js-sys = "*"
serde = "*"
wasm-bindgen = { version = "*", features = ["serde-serialize"] }
wasm-bindgen-futures = "*"
web-sys = { version = "*", features = ["DomException", "DomStringList", "Event", "EventTarget", "IdbDatabase", "IdbFactory", "IdbObjectStore", "IdbObjectStoreParameters", "IdbOpenDbRequest", "IdbRequest", "IdbRequestReadyState", "IdbTransaction", "IdbTransactionMode", "IdbVersionChangeEvent", "Window"] }
