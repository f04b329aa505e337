# qhy_core

The verified core of a Lightspeed driver for QHY astronomical cameras.

`src/` is a Verus library. It holds the logic of the driver, each public
function with a contract that Verus proves:

- `status`: SDK status codes, the start of a single-frame exposure, stream modes.
- `control`: the camera controls and their SDK codes, both conversions, the
  list of all controls in code order and the sorting of a set of controls.
- `text`: decimal formatting, string comparison, decoding of the C strings
  the SDK writes.
- `version`: firmware and SDK versions, decoded and formatted.
- `frame`: frame geometry, the pixel bytes of a readout, their base64 text.
- `exposure`: the exposure cycle of a device (expose, read out, return to rest).
- `dark`, `fits`: the check of a dark frame and the FITS file written for it.
- `topic`: the MQTT topics of devices and the property names of commands.
- `scan`, `probe`, `capture`, `gather`, `device`: the decisions of camera
  discovery, of the camera probe, of taking a dark frame, of gathering a
  camera's controls and of the loop of a device thread, as step functions
  that the caller drives.

`app/` is the program around it: the SDK bindings, threads, channels,
sleeps, MQTT, serde and the FITS writer. It calls the library for its
decisions; what it decides itself works on floating-point values (camera
properties, control ranges, the percentage in a message).
