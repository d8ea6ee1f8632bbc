[package]
name = "one_button_keyboard"
version = "0.1.0"
edition = "2021"
publish = false

[dependencies]
cortex-m = "=0.7.9"
stm32f1xx-hal = { version = "=0.11.0", features = ["stm32f103", "medium"] }
usb-device = "=0.3.2"
usbd-hid = "=0.10.2"
stm32-device-signature = { version = "=0.3.3", features = ["stm32f1"] }

[dev-dependencies]
crc16 = "=0.4.0"
