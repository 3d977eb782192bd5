# weather_clock

Firmware logic of an ESP32 weather clock with a 128x64 SSD1306 screen,
verified with Verus.

- `src/` is the verified library:
  - `weather` classifies WMO weather codes;
  - `state` holds what the screen shows and takes over forecast reports;
  - `clock` holds a clock reading by its calendar fields and writes the clock
    and date lines;
  - `text` holds decimal notation and the laws that it reads back faithfully;
  - `geometry` places rectangles through `embedded-layout`'s alignment rules
    and `embedded-graphics`' rectangle and triangle bounds;
  - `screen` lays out the fixed elements, the precipitation bars, the texts of
    a frame and where they go, the frame counter and the frame-rate label.
- `tests/` runs the library, comparing it with `embedded-layout`,
  `embedded-graphics` and the float arithmetic of the drawing loop.
- `app/main.rs` is the firmware around it: WiFi, HTTP, JSON, the system
  clock, the display and the drawing calls. It needs the ESP-IDF toolchain
  and the sprite sheet `assets/Sprite-0001.tga`.
