[package]
name = "winsvc"
version = "0.1.0"
edition = "2021"
publish = false

[dependencies]
serde = "1"
structopt = "0.3"
tokio = { version = "1", features = ["rt", "rt-multi-thread", "sync", "time"] }
tracing = "0.1"
tracing-subscriber = { version = "0.3", features = ["env-filter"] }
winapi = { version = "0.3", features = ["errhandlingapi", "handleapi", "minwindef", "processthreadsapi", "psapi", "synchapi", "winbase", "winerror", "winnt", "winreg", "winsvc"] }
