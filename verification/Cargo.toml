[package]
name = "streamq_native"
version = "0.1.0"
edition = "2021"
publish = false

[dependencies]
anyhow = "1"
ashpd = { version = "0.11", default-features = false, features = ["tokio"] }
blake3 = "1"
crossbeam-channel = "0.5"
debounce = "0.2"
futures = "0.3"
futures-util = "0.3"
gtk = "0.18"
gtk-layer-shell = "0.8"
libpulse-binding = "2"
mpris-server = "0.9"
napi = { version = "3", default-features = false, features = ["napi4", "tokio_rt", "serde-json"] }
napi-derive = "3"
serde = { version = "1", features = ["derive"] }
serde_json = "1"
strum_macros = "0.26"
thiserror = "2"
tokio = { version = "1", features = ["rt", "rt-multi-thread", "sync", "macros", "time"] }
tracing = "0.1"
tracing-subscriber = { version = "0.3", features = ["json", "env-filter"] }
url = "2"
webkit2gtk = "2.0"
winapi = { version = "0.3", features = ["winuser", "windef", "errhandlingapi", "minwindef"] }
windows = { version = "0.51", features = ["implement", "Foundation", "Media_Control", "Storage_Streams", "Win32_Foundation", "Win32_Media_Audio", "Win32_Media_Audio_Endpoints", "Win32_System_Com", "Win32_System_Com_StructuredStorage", "Win32_System_Threading", "Win32_System_WinRT", "Win32_Devices_FunctionDiscovery", "Win32_UI_Shell_PropertiesSystem", "Win32_Storage_Packaging_Appx"] }
windows-sys = { version = "0.52", features = ["Win32_Foundation", "Win32_Graphics_Dwm", "Win32_System_LibraryLoader", "Win32_System_Threading"] }
windows-version = "0.1"
zbus = { version = "5", default-features = false, features = ["tokio"] }
