# mcu_common

Message formats and configuration logic of the Caliptra MCU subsystem, written
in Verus with their contracts proved.

- `src/pldm`: PLDM base and firmware-update messages, their byte encoding
  (every message decodes back from its encoding), the MCTP framing around
  them, and the firmware component update eligibility check.
- `src/flash_image.rs`: the flash image layout (header, image headers,
  images, checksums); a created image verifies.
- `src/config`: memory map and MRAC register computation, capability bitmaps,
  boot partition types.
- `src/mbox`, `src/host`: mailbox command codes, request kinds and their
  wire lengths, the byte layout of the fuse, DOT, OCP Lock and attestation
  requests and of some responses, the message checksum (a populated message
  passes its check), command dispatch tables, validation results, and the
  decisions of the device validation runs (which validations run, the DOT
  sequence, the authorized fuse suites, the negative authorization tests,
  the attestation checks) as step functions from state and event to next
  state and result, each result with the detail it reports.
- `src/builder.rs`: firmware bundle contents, image configuration parsing,
  and the runtime feature plan of a bundle build.
- `src/wire.rs`: little- and big-endian integer encoding shared by the formats.

`app/` holds what touches files, the environment and the console: reading a
firmware bundle archive, writing and checking flash image files, and printing
validation summaries. `tests/` runs the library on concrete values.
