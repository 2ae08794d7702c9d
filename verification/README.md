# msr-driver-rs

A client for the Windows MSR drivers (Scaphandre or WinRing0): it opens the
driver's device, reads model-specific registers through it, and installs,
starts, queries and removes the driver's kernel service.

The library (`src/`) holds every decision the client makes and is verified
with Verus. Each operation is a small state machine: it names the next
Windows call it needs as a `Request`, takes what that call reported as a
`Reply`, and goes on until it ends with a result.

- `calls.rs`: requests, replies, the Win32 constants the decisions use.
- `device.rs`: the device handle; opening, register reads, closing.
- `service.rs`: querying, starting, stopping and removing the service.
- `deploy.rs`: comparing and placing the driver binary.
- `install.rs`: installing and starting the service.
- `driver.rs`: `MsrDriver`, its operations, and uninstalling from an instance.
- `digest.rs`: the content digest used to compare driver binaries.
- `error.rs`: the error type and its messages.
- `laws.rs`: properties proved of the operations together.

`app/` performs the requests on Windows through `windows-sys` and offers
the blocking API (`MsrDriver::new()?.read_msr(..)?`) for the driver named by
`app::FLAVOR` (Scaphandre; WinRing0 is the other choice). The driver image is
read from beside the running executable.
