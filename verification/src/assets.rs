//! The files that are bundled with the program, each under the name it is
//! given in a project.

use vstd::prelude::*;

verus! {

/// The ending of a pin-constraint file's name.
pub const LPF_SUFFIX: &'static str = ".lpf";

/// File name of the ULX3S pin constraints.
pub const ULX3S_LPF_NAME: &'static str = "ulx3s_v20.lpf";

/// Pin constraints of the ULX3S, board revision 2.0: the clock, the LEDs,
/// the push buttons and the line that keeps the ESP32 from resetting the board.
pub const ULX3S_LPF: &'static str = "BLOCK RESETPATHS;
BLOCK ASYNCPATHS;
## ULX3S v2.0 and v2.1

# The clock \"usb\" and \"gpdi\" sheet
LOCATE COMP \"clk_25mhz\" SITE \"G2\";
IOBUF PORT \"clk_25mhz\" PULLMODE=NONE IO_TYPE=LVCMOS33;
FREQUENCY PORT \"clk_25mhz\" 25 MHZ;

# JTAG and SPI FLASH voltage 3.3V and options to boot from SPI flash
SYSCONFIG CONFIG_IOVOLTAGE=3.3 COMPRESS_CONFIG=ON MCCLK_FREQ=62 SLAVE_SPI_PORT=DISABLE MASTER_SPI_PORT=ENABLE SLAVE_PARALLEL_PORT=DISABLE;

## LED indicators \"blinkey\" and \"gpio\" sheet
LOCATE COMP \"led[7]\" SITE \"H3\";
LOCATE COMP \"led[6]\" SITE \"E1\";
LOCATE COMP \"led[5]\" SITE \"E2\";
LOCATE COMP \"led[4]\" SITE \"D1\";
LOCATE COMP \"led[3]\" SITE \"D2\";
LOCATE COMP \"led[2]\" SITE \"C1\";
LOCATE COMP \"led[1]\" SITE \"C2\";
LOCATE COMP \"led[0]\" SITE \"B2\";
IOBUF PORT \"led[0]\" PULLMODE=NONE IO_TYPE=LVCMOS33 DRIVE=4;
IOBUF PORT \"led[1]\" PULLMODE=NONE IO_TYPE=LVCMOS33 DRIVE=4;
IOBUF PORT \"led[2]\" PULLMODE=NONE IO_TYPE=LVCMOS33 DRIVE=4;
IOBUF PORT \"led[3]\" PULLMODE=NONE IO_TYPE=LVCMOS33 DRIVE=4;
IOBUF PORT \"led[4]\" PULLMODE=NONE IO_TYPE=LVCMOS33 DRIVE=4;
IOBUF PORT \"led[5]\" PULLMODE=NONE IO_TYPE=LVCMOS33 DRIVE=4;
IOBUF PORT \"led[6]\" PULLMODE=NONE IO_TYPE=LVCMOS33 DRIVE=4;
IOBUF PORT \"led[7]\" PULLMODE=NONE IO_TYPE=LVCMOS33 DRIVE=4;

## Pushbuttons \"blinkey\", \"flash\", \"power\", \"gpdi\" sheet
LOCATE COMP \"btn[0]\" SITE \"D6\";
LOCATE COMP \"btn[1]\" SITE \"R1\";
LOCATE COMP \"btn[2]\" SITE \"T1\";
LOCATE COMP \"btn[3]\" SITE \"R18\";
LOCATE COMP \"btn[4]\" SITE \"V1\";
LOCATE COMP \"btn[5]\" SITE \"U1\";
LOCATE COMP \"btn[6]\" SITE \"H16\";
IOBUF PORT \"btn[0]\" PULLMODE=UP IO_TYPE=LVCMOS33 DRIVE=4;
IOBUF PORT \"btn[1]\" PULLMODE=DOWN IO_TYPE=LVCMOS33 DRIVE=4;
IOBUF PORT \"btn[2]\" PULLMODE=DOWN IO_TYPE=LVCMOS33 DRIVE=4;
IOBUF PORT \"btn[3]\" PULLMODE=DOWN IO_TYPE=LVCMOS33 DRIVE=4;
IOBUF PORT \"btn[4]\" PULLMODE=DOWN IO_TYPE=LVCMOS33 DRIVE=4;
IOBUF PORT \"btn[5]\" PULLMODE=DOWN IO_TYPE=LVCMOS33 DRIVE=4;
IOBUF PORT \"btn[6]\" PULLMODE=DOWN IO_TYPE=LVCMOS33 DRIVE=4;

## WiFi ESP-32 \"wifi\", \"usb\", \"flash\" sheet
LOCATE COMP \"wifi_gpio0\" SITE \"L2\";
IOBUF PORT \"wifi_gpio0\" PULLMODE=UP IO_TYPE=LVCMOS33 DRIVE=4;
";

} // verus!
