//! The text of the generated files: the top file, the synthesis script and
//! the build file, each as a function of the project's name and hardware.

use crate::hardware::{DevBoard, Target};
use crate::text::{includes, lemma_encoding_includes, lemma_includes_middle};
use vstd::prelude::*;
use vstd::utf8::encode_utf8;

verus! {

/// The top file up to the name of its module.
pub const TOP_FILE_HEAD: &'static str = "`ifdef VERILATOR
/* verilator lint_off UNUSED */
module ";

/// The top file after the name of its module: a blinker for eight LEDs.
pub const TOP_FILE_TAIL: &'static str = "(input i_clk, input [6:0] btn, output [7:0] o_led);
/* verilator lint_on UNUSED */
    wire i_clk;
    wire [6:0] btn;
    wire [7:0] o_led;
`else
module top(input clk_25mhz,
           input [6:0] btn,
           output [7:0] led,
           output wifi_gpio0);

    wire i_clk;

    // Tie GPIO0, keep board from rebooting
    assign wifi_gpio0 = 1'b1;
    assign i_clk= clk_25mhz;
    reg [7:0] o_led;
    assign led= o_led;
`endif

    localparam ctr_width = 32;
    reg [ctr_width-1:0] ctr = 0;

    always @(posedge i_clk) begin
               ctr <= ctr + 1;
          o_led[7] <= 1;
          o_led[6] <= btn[1];
        o_led[5:0] <= ctr[23:18];
    end
endmodule
    ";

/// The build file up to the name of the top module.
pub const MAKEFILE_HEAD: &'static str = ".PHONY: all
.DELETE_ON_ERROR:
TOPMOD  := ";

/// The build file's rules for simulation, cleaning, programming and packing,
/// up to the place-and-route invocation.
pub const MAKEFILE_RULES: &'static str = "
VLOGFIL := $(TOPMOD).v
BINFILE := $(TOPMOD).bin
VDIRFB  := ./obj_dir
all: $(VCDFILE)

GCC := g++
CFLAGS = -g -Wall -I$(VINC) -I $(VDIRFB)
#
# Modern versions of Verilator and C++ may require an -faligned-new flag
# CFLAGS = -g -Wall -faligned-new -I$(VINC) -I $(VDIRFB)

VERILATOR=verilator
VFLAGS := -O3 -MMD --trace -Wall

## Find the directory containing the Verilog sources.  This is given from
## calling: \"verilator -V\" and finding the VERILATOR_ROOT output line from
## within it.  From this VERILATOR_ROOT value, we can find all the components
## we need here--in particular, the verilator include directory
VERILATOR_ROOT ?= $(shell bash -c '$(VERILATOR) -V|grep VERILATOR_ROOT | head -1 | sed -e \"s/^.*=\\s*//\"')
##
## The directory containing the verilator includes
VINC := $(VERILATOR_ROOT)/include

$(VDIRFB)/V$(TOPMOD).cpp: $(TOPMOD).v
\t$(VERILATOR) $(VFLAGS) -cc $(VLOGFIL)

$(VDIRFB)/V$(TOPMOD)__ALL.a: $(VDIRFB)/V$(TOPMOD).cpp
\tmake --no-print-directory -C $(VDIRFB) -f V$(TOPMOD).mk

$(SIMPROG): $(SIMFILE) $(VDIRFB)/V$(TOPMOD)__ALL.a $(COSIMS)
\t$(GCC) $(CFLAGS) $(VINC)/verilated.cpp\t\t\t\t\\
\t\t$(VINC)/verilated_vcd_c.cpp $(SIMFILE) $(COSIMS)\t\\
\t\t$(VDIRFB)/V$(TOPMOD)__ALL.a -o $(SIMPROG)

test: $(VCDFILE)

$(VCDFILE): $(SIMPROG)
\t./$(SIMPROG)

## 
.PHONY: clean
clean:
\trm -rf $(VDIRFB)/ $(SIMPROG) $(VCDFILE) $(TOPMOD)/ $(BINFILE) $(RPTFILE)
\trm -rf build

##
## Find all of the Verilog dependencies and submodules
##
DEPS := $(wildcard $(VDIRFB)/*.d)

## Include any of these submodules in the Makefile
## ... but only if we are not building the \"clean\" target
## which would (oops) try to build those dependencies again
##
ifneq ($(MAKECMDGOALS),clean)
ifneq ($(DEPS),)
include $(DEPS)
endif
endif

prog: build/out.bit | build_dir
\tfujprog build/out.bit

build/out.bit: build/$(TOPMOD)_out.config | build_dir
\tecppack build/$(TOPMOD)_out.config build/out.bit

build/$(TOPMOD)_out.config: build/$(TOPMOD).json | build_dir
\t\t";

/// The build file after the place-and-route invocation's hardware arguments.
pub const MAKEFILE_TAIL: &'static str = "
\t\t--textcfg build/$(TOPMOD)_out.config 

build/$(TOPMOD).json: $(TOPMOD).ys $(TOPMOD).v | build_dir
\tyosys $(TOPMOD).ys
\t
build_dir:
\tmkdir -p build
    ";

/// The top file of the project `name`: one module, named after the project.
pub open spec fn top_file_text(name: Seq<char>) -> Seq<char> {
    TOP_FILE_HEAD@ + name + TOP_FILE_TAIL@
}

/// The synthesis script of the project `name`: it reads the top file and runs
/// the synthesis command of `target` on it.
pub open spec fn yosys_script_text(name: Seq<char>, target: Target) -> Seq<char> {
    "read_verilog "@ + name + ".v\n"@ + target.synthesis_command()
        + " -noccu2 -nomux -nodram -json build/"@ + name + ".json\n    "@
}

/// The first line of the place-and-route invocation for `target` on the
/// synthesized design of the project `name`.
pub open spec fn place_and_route_line(name: Seq<char>, target: Target) -> Seq<char> {
    target.place_and_route_command() + " --json build/"@ + name + ".json \\"@
}

/// The line of the place-and-route invocation that names the board's pin
/// constraints; nothing at all where no board was chosen.
pub open spec fn constraint_line(dev_board: Option<DevBoard>) -> Seq<char> {
    match dev_board {
        Some(board) => "\n\t\t"@ + board.constraint_flag() + " \\"@,
        None => Seq::empty(),
    }
}

/// The build file of the project `name` for `target` and, where one was
/// chosen, `dev_board`.
pub open spec fn makefile_text(
    name: Seq<char>,
    target: Target,
    dev_board: Option<DevBoard>,
) -> Seq<char> {
    MAKEFILE_HEAD@ + name + MAKEFILE_RULES@ + place_and_route_line(name, target)
        + constraint_line(dev_board) + MAKEFILE_TAIL@
}

/// Writes out the top file of a project.
pub fn top_file(project_name: &str) -> (text: String)
    ensures
        text@ == top_file_text(project_name@),
{
    let mut text = TOP_FILE_HEAD.to_owned();
    text.append(project_name);
    text.append(TOP_FILE_TAIL);
    text
}

/// Writes out the synthesis script of a project.
pub fn yosys_script(project_name: &str, target: Target) -> (text: String)
    ensures
        text@ == yosys_script_text(project_name@, target),
{
    let mut text = "read_verilog ".to_owned();
    text.append(project_name);
    text.append(".v\n");
    text.append(target.toolchain_fragment());
    text.append(" -noccu2 -nomux -nodram -json build/");
    text.append(project_name);
    text.append(".json\n    ");
    text
}

/// Writes out the build file of a project.
pub fn makefile(project_name: &str, target: Target, dev_board: Option<DevBoard>) -> (text: String)
    ensures
        text@ == makefile_text(project_name@, target, dev_board),
{
    let mut text = MAKEFILE_HEAD.to_owned();
    text.append(project_name);
    text.append(MAKEFILE_RULES);
    let ghost before = text@;
    text.append(target.place_and_route_fragment());
    text.append(" --json build/");
    text.append(project_name);
    text.append(".json \\");
    proof {
        assert(text@ =~= before + place_and_route_line(project_name@, target));
    }
    let ghost routed = text@;
    match dev_board {
        Some(board) => {
            let flag = board.toolchain_fragment();
            text.append("\n\t\t");
            text.append(flag.as_str());
            text.append(" \\");
            proof {
                assert(text@ =~= routed + constraint_line(dev_board));
            }
        },
        None => {
            proof {
                assert(text@ =~= routed + constraint_line(dev_board));
            }
        },
    }
    text.append(MAKEFILE_TAIL);
    text
}

/// The synthesis script invokes the synthesis command of its target, in its
/// text and in the bytes written.
pub proof fn lemma_script_names_synthesis(name: Seq<char>, target: Target)
    ensures
        includes(yosys_script_text(name, target), target.synthesis_command()),
        includes(
            encode_utf8(yosys_script_text(name, target)),
            encode_utf8(target.synthesis_command()),
        ),
{
    let before = "read_verilog "@ + name + ".v\n"@;
    let after = " -noccu2 -nomux -nodram -json build/"@ + name + ".json\n    "@;
    lemma_includes_middle(before, target.synthesis_command(), after);
    assert(yosys_script_text(name, target) =~= before + target.synthesis_command() + after);
    lemma_encoding_includes(yosys_script_text(name, target), target.synthesis_command());
}

/// The build file invokes place-and-route as its target asks, in its text
/// and in the bytes written.
pub proof fn lemma_makefile_names_place_and_route(
    name: Seq<char>,
    target: Target,
    dev_board: Option<DevBoard>,
)
    ensures
        includes(makefile_text(name, target, dev_board), target.place_and_route_command()),
        includes(
            encode_utf8(makefile_text(name, target, dev_board)),
            encode_utf8(target.place_and_route_command()),
        ),
{
    let before = MAKEFILE_HEAD@ + name + MAKEFILE_RULES@;
    let after = " --json build/"@ + name + ".json \\"@ + constraint_line(dev_board)
        + MAKEFILE_TAIL@;
    lemma_includes_middle(before, target.place_and_route_command(), after);
    assert(makefile_text(name, target, dev_board) =~= before + target.place_and_route_command()
        + after);
    lemma_encoding_includes(
        makefile_text(name, target, dev_board),
        target.place_and_route_command(),
    );
}

/// With a board, the build file hands the board's pin constraints to
/// place-and-route, in its text and in the bytes written.
pub proof fn lemma_makefile_names_constraints(name: Seq<char>, target: Target, board: DevBoard)
    ensures
        includes(makefile_text(name, target, Some(board)), board.constraint_flag()),
        includes(
            encode_utf8(makefile_text(name, target, Some(board))),
            encode_utf8(board.constraint_flag()),
        ),
{
    let before = MAKEFILE_HEAD@ + name + MAKEFILE_RULES@ + place_and_route_line(name, target)
        + "\n\t\t"@;
    let after = " \\"@ + MAKEFILE_TAIL@;
    lemma_includes_middle(before, board.constraint_flag(), after);
    assert(makefile_text(name, target, Some(board)) =~= before + board.constraint_flag() + after);
    lemma_encoding_includes(makefile_text(name, target, Some(board)), board.constraint_flag());
}

/// Without a board, place-and-route is given no constraint line: the build
/// file goes straight from the design to the output configuration.
pub proof fn lemma_makefile_without_board(name: Seq<char>, target: Target)
    ensures
        makefile_text(name, target, None) == MAKEFILE_HEAD@ + name + MAKEFILE_RULES@
            + place_and_route_line(name, target) + MAKEFILE_TAIL@,
{
    assert(makefile_text(name, target, None) =~= MAKEFILE_HEAD@ + name + MAKEFILE_RULES@
        + place_and_route_line(name, target) + MAKEFILE_TAIL@);
}

} // verus!
