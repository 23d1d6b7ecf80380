[package]
name = "vimbrowse"
version = "0.1.0"
edition = "2021"
publish = false

[dependencies]
anyhow = "1"
softbuffer = "0.4"
win-hotkeys = "*"
winit = "0.30"

[dependencies.windows]
version = "*"
features = [
    "Win32_Foundation",
    "Win32_Graphics_Gdi",
    "Win32_Security",
    "Win32_System_Diagnostics_ToolHelp",
    "Win32_System_Environment",
    "Win32_System_SystemServices",
    "Win32_System_Threading",
    "Win32_UI_Input_KeyboardAndMouse",
]

[dev-dependencies]
hsv = "*"
