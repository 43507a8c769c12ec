# qcom_socinfo

Verified core of the Qualcomm SoC information driver (which decodes the SoC information and
image-version items of shared memory, registers a SoC device and exports the decoded values to
DebugFS) and of the kernel abstractions it uses.

* `src/` is the library, verified with Verus:
  * `socinfo`: layout of the SoC information block, reading a possibly short copy of it, and the
    values each format version provides (`build_params`), the device attributes and the machine
    lookup;
  * `export`: how each value is shown and the full list of DebugFS files (`build_debugfs`);
  * `text`: the exact bytes of decimal, hexadecimal and escaped C-string output;
  * `data`: the PMIC model and image-name tables;
  * `debugfs`, `file`, `file::operations`, `soc`, `error`: handles and decisions of the kernel
    abstractions, with C objects held as addresses;
  * `sample`: the DebugFS sample's ioctl interface and device table.
* `app/` is the kernel glue that makes the C calls and hands their results to the library.
* `tests/` runs the library on concrete blocks and commands.
