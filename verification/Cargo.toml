[package]
name = "leptos-todo-new"
version = "0.1.0"
edition = "2021"
publish = false

[dependencies]
actix-web = "4"
chrono = "0.4"
console_error_panic_hook = "0.1"
leptos = { version = "0.6", features = ["ssr"] }
leptos_actix = "0.6"
leptos_meta = { version = "0.6", features = ["ssr"] }
leptos_router = { version = "0.6", features = ["ssr"] }
leptos-use = "0.13"
serde = { version = "1", features = ["derive"] }
tokio = { version = "1", features = ["rt"] }
tokio-postgres = { version = "0.7", features = ["with-chrono-0_4"] }
wasm-bindgen = "0.2"
