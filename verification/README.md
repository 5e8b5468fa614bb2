# lianli_lcd

Drivers for Lian Li LCD panels and all-in-one coolers with an LCD, verified with Verus.

`src/` holds what the drivers decide, with contracts and proofs:

- H.264 streams: `access_unit` finds access units, `unit_buffer` collects them, `live_stream`,
  `file_stream` and `reader_stream` are the loops that feed an LCD, `pacing` keeps their time.
- Coolers: `aio_protocol` and `lcd_packet` make and read reports, `transfer` sends packets,
  `aio_controller` is the state of a cooler, `dialogue`, `firmware`, `init` and `recovery` are the conversations with it, and
  `recovery_watch` is the thread that looks after its LCD.
- WinUSB panels: `winusb_lcd` and `winusb_device` say what a panel is asked to do, `sender` what the
  thread that owns it does.
- The daemon: `backend`, `frame_source` and `target` are an LCD with what it shows, `enumerate` and
  `serial` find the devices on the USB, `shutdown` ends everything in order.

`app/` performs what the library decides: it talks to devices, opens files and runs threads. The
protocol numbers, transports and media pipelines come in through the traits in `app/interfaces.rs`.

`tests/` runs the library on concrete values.
