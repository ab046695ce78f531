# rtlsdr_nusb

A driver for RTL2832U receivers with R820T or R828D tuners, on top of `nusb`. The driver's logic is
a library verified with Verus; the code that talks to USB is a thin layer around it.

## Layout

- `src/` is the verified library.
  - `config`: validated settings; gains are single precision values, taken in steps of 2^-22 dB.
  - `errors`: the error type, its categories and texts.
  - `protocol`: register encoding. A control sequence runs against the replies given so far; where
    none is left it waits, and it is run again with one more reply. `protocol::causality` proves
    that this is the same as resuming it.
  - `tuners`: tuner control, frequency planning (`pll`), register tables (`registers`), and the
    proof that the shadow registers hold what the tuner acknowledged (`shadow`).
  - `rtl2832u`: bringing up, configuring and shutting down the hardware, with its laws; when a
    configuration starts over and when it builds upon the last one (`bring_up`).
  - `discovery`, `usb`, `device`: selecting, opening and configuring a device.
  - `session`: who may do what when: lifecycle, exclusive stream claim, control operations.
  - `rx`: counters, receive buffers, samples, and the lifecycle of a stream.
- `tests/` runs the library against simulated hardware.
- `app/` performs the transfers with `nusb`, in blocking and in asynchronous form, and owns device
  and stream. Float conversion happens there.

## Reading the contracts

Hardware sequences are specified as functions from a state and a control line (replies given,
requests issued) to a `Run`: the state afterwards, the line, and the outcome. Each executable
sequence ensures that it is that run. What follows from the sequences is stated as public proof
functions, most of them in the `laws` modules.
