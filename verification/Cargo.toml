[package]
name = "blur_launcher"
version = "0.1.0"
edition = "2021"
publish = false

[dependencies]
serde = { version = "1", features = ["derive"] }
serde_json = "1"
tokio = { version = "1", features = ["rt", "time"] }
windows = { version = "*", features = ["Win32_Foundation", "Win32_Security", "Win32_Security_Authorization", "Win32_Storage_FileSystem", "Win32_System_Com", "Win32_System_Variant", "Win32_System_Wmi", "Win32_System_Registry", "Win32_System_Services", "Win32_NetworkManagement_IpHelper", "Win32_NetworkManagement_WindowsFirewall", "Win32_Networking_NetworkListManager", "Win32_System_Ole"] }
