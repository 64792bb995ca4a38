# esp_hal_qspi

Adapter between a QSPI display bus and the SPI peripheral with DMA of an
ESP32-S3.

* `src/` is the verified library. It turns transactions into transfer requests
  (`transaction`), decides whether the DMA engine can send a payload from where it
  lies (`memory`), and keeps track of the peripheral and its buffers through a
  write or a read (`device`). What holds of transfers as a whole is proved in
  `laws`.
* `app/` runs the transfers with `esp-hal` and implements the `QspiDevice` trait of
  `display-driver-qspi`. It builds for the ESP32-S3 only.
* `tests/` runs the library on the host.

A transfer has two steps. `begin_write` or `begin_read` takes the handles out of
the device and says what the peripheral has to do; `finish_write` or `finish_read`
takes them back once the transfer has run. A transfer that the peripheral does not
accept is answered as unsupported, and the device can start no other after it.
