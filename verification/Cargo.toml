[package]
name = "tabify_explorer"
version = "0.3.6"
edition = "2021"
publish = false

[dependencies]
windows = { version = "0.56", features = ["Win32_Foundation", "Win32_Graphics_Dwm", "Win32_Graphics_Gdi", "Win32_Security", "Win32_System_Com", "Win32_System_Diagnostics_Debug", "Win32_System_Diagnostics_ToolHelp", "Win32_System_LibraryLoader", "Win32_System_Registry", "Win32_System_SystemServices", "Win32_System_Threading", "Win32_System_Variant", "Win32_System_Ole", "Win32_UI_Accessibility", "Win32_UI_Input_KeyboardAndMouse", "Win32_UI_Shell", "Win32_UI_Shell_Common", "Win32_UI_WindowsAndMessaging"] }
