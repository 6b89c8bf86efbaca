//! The keyboard as the pipeline sees it: its geometry table, the operations
//! sent to it, and the reports read from it.

use crate::color::{cell_color, cell_color_of, Rgb};
use crate::frame::{Frame, FrameView};
use crate::text::{decimal, push_decimal, same_text};
use vstd::prelude::*;
use vstd::string::*;

verus! {

/// The LED grid of a model, as `(width, height)`, or `None` for a model that
/// is not supported. A model without lights has the grid `(0, 0)`.
pub open spec fn rgb_size_of(model_name: Seq<char>) -> Option<(u32, u32)> {
    if model_name == "Wooting One"@ {
        Some((17u32, 6u32))
    } else if model_name == "Wooting Two"@ || model_name == "Wooting Two LE"@ || model_name
        == "Wooting Two HE"@ || model_name == "Wooting Two HE (ARM)"@ {
        Some((17u32, 6u32))
    } else if model_name == "Wooting 60HE"@ || model_name == "Wooting 60HE (ARM)"@ {
        Some((14u32, 5u32))
    } else if model_name == "Wooting UwU RGB"@ {
        Some((6u32, 4u32))
    } else if model_name == "Wooting UwU"@ {
        Some((0u32, 0u32))
    } else {
        None
    }
}

/// Looks a model name up in the geometry table.
pub fn get_rgb_size(model_name: &str) -> (out: Option<(u32, u32)>)
    ensures
        out == rgb_size_of(model_name@),
{
    if same_text(model_name, "Wooting One") {
        Some((17, 6))
    } else if same_text(model_name, "Wooting Two") || same_text(model_name, "Wooting Two LE")
        || same_text(model_name, "Wooting Two HE") || same_text(
        model_name,
        "Wooting Two HE (ARM)",
    ) {
        Some((17, 6))
    } else if same_text(model_name, "Wooting 60HE") || same_text(model_name, "Wooting 60HE (ARM)") {
        Some((14, 5))
    } else if same_text(model_name, "Wooting UwU RGB") {
        Some((6, 4))
    } else if same_text(model_name, "Wooting UwU") {
        Some((0, 0))
    } else {
        None
    }
}

/// Whether a model has lights in its bottom row that no key switch covers.
pub open spec fn is_split_zone(model_name: Seq<char>) -> bool {
    model_name == "Wooting 60HE"@ || model_name == "Wooting 60HE (ARM)"@
}

/// Decides [`is_split_zone`].
pub fn is_split_zone_model(model_name: &str) -> (out: bool)
    ensures
        out == is_split_zone(model_name@),
{
    same_text(model_name, "Wooting 60HE") || same_text(model_name, "Wooting 60HE (ARM)")
}

/// One operation on the keyboard. The pipeline decides which operations to
/// run and in which order; the caller runs them.
#[derive(Clone, Copy, Debug, PartialEq, Eq, Structural)]
pub enum DeviceOp {
    /// Give the lights back to the keyboard's own profile.
    Reset,
    /// Forget the colours set so far.
    ResetRgb,
    /// Close the handle.
    Close,
    /// Drop the connection.
    Disconnect,
    /// Wait for the device to settle.
    Settle { millis: u64 },
    /// Look for a keyboard and connect to it.
    FindKeyboard,
    /// Read the model name of the connected keyboard.
    ReadModel,
    /// Send a feature report with the given command and read the response.
    ReadReport { command: u8 },
    /// Set the colour of one cell. Nothing shows before the next commit.
    SetCell { row: u32, col: u32, color: Rgb },
    /// Make every colour set so far visible at once.
    Commit,
}

/// Time given to the device between a disconnect and the next discovery.
pub const SETTLE_MILLIS: u64 = 50;

/// Command of the feature report that holds the firmware version.
pub const VERSION_COMMAND: u8 = 1;

/// Command of the feature report that holds the creation date.
pub const CREATION_COMMAND: u8 = 3;

/// The operation for the cell with the given index, cells counted row after
/// row: the cell at column `x`, row `y` is written to row `y + 1` of the
/// device, whose first row is reserved.
pub open spec fn cell_op(
    frame: FrameView,
    index: int,
    brightness: u8,
    red_shift_fix: bool,
    highlight_wasd: bool,
    split_zone: bool,
) -> DeviceOp {
    let x = index % (frame.width as int);
    let y = index / (frame.width as int);
    DeviceOp::SetCell {
        row: (y + 1) as u32,
        col: x as u32,
        color: cell_color_of(
            x,
            y,
            frame.rgb_at(x, y),
            brightness,
            red_shift_fix,
            highlight_wasd,
            split_zone,
        ),
    }
}

/// The operations that draw a frame: one for each cell, row after row, then
/// a single commit.
pub open spec fn drawn(
    frame: FrameView,
    brightness: u8,
    red_shift_fix: bool,
    highlight_wasd: bool,
    split_zone: bool,
) -> Seq<DeviceOp> {
    Seq::new(
        frame.width * frame.height,
        |i: int| cell_op(frame, i, brightness, red_shift_fix, highlight_wasd, split_zone),
    ).push(DeviceOp::Commit)
}

/// Turns a downscaled frame into the operations that show it on the device.
pub fn draw_rgb(
    resized_capture: &Frame,
    brightness: u8,
    red_shift_fix: bool,
    highlight_wasd: bool,
    model_name: &str,
) -> (ops: Vec<DeviceOp>)
    ensures
        ops@ == drawn(
            resized_capture@,
            brightness,
            red_shift_fix,
            highlight_wasd,
            is_split_zone(model_name@),
        ),
{
    let split_zone = is_split_zone_model(model_name);
    let (width, height) = resized_capture.dimensions();
    let ghost frame = resized_capture@;
    let ghost cells = |i: int|
        cell_op(frame, i, brightness, red_shift_fix, highlight_wasd, split_zone);
    let mut ops: Vec<DeviceOp> = Vec::new();
    let mut y: u32 = 0;
    while y < height
        invariant
            y <= height,
            width == frame.width,
            height == frame.height,
            frame == resized_capture@,
            cells == |i: int|
                cell_op(frame, i, brightness, red_shift_fix, highlight_wasd, split_zone),
            ops@ == Seq::new((y * width) as nat, cells),
        decreases height - y,
    {
        let mut x: u32 = 0;
        while x < width
            invariant
                x <= width,
                y < height,
                width == frame.width,
                height == frame.height,
                frame == resized_capture@,
                cells == |i: int|
                    cell_op(frame, i, brightness, red_shift_fix, highlight_wasd, split_zone),
                ops@ == Seq::new((y * width + x) as nat, cells),
            decreases width - x,
        {
            let source = resized_capture.pixel(x, y);
            let color = cell_color(
                x,
                y,
                source,
                brightness,
                red_shift_fix,
                highlight_wasd,
                split_zone,
            );
            proof {
                let index = y * width + x;
                vstd::arithmetic::div_mod::lemma_fundamental_div_mod_converse(
                    index,
                    width as int,
                    y as int,
                    x as int,
                );
                assert(ops@.push(DeviceOp::SetCell { row: (y + 1) as u32, col: x, color })
                    =~= Seq::new((index + 1) as nat, cells));
            }
            ops.push(DeviceOp::SetCell { row: y + 1, col: x, color });
            x += 1;
        }
        proof {
            assert(y * width + width == (y + 1) * width) by (nonlinear_arith);
        }
        y += 1;
    }
    proof {
        assert((height * width) as nat == frame.width * frame.height) by (nonlinear_arith)
            requires
                width == frame.width,
                height == frame.height,
        ;
    }
    ops.push(DeviceOp::Commit);
    ops
}

/// A drawn frame sets every cell once and commits once, at the very end.
pub proof fn lemma_commit_once(
    frame: FrameView,
    brightness: u8,
    red_shift_fix: bool,
    highlight_wasd: bool,
    split_zone: bool,
)
    ensures
        ({
            let ops = drawn(frame, brightness, red_shift_fix, highlight_wasd, split_zone);
            &&& ops.len() == frame.width * frame.height + 1
            &&& ops.last() == DeviceOp::Commit
            &&& forall|i: int| 0 <= i < ops.len() - 1 ==> #[trigger] ops[i] is SetCell
        }),
{
}

/// On a grid of at most 256 columns and 255 rows every cell is written to a
/// row from 1 to 255 and a column up to 255: both fit in a byte.
pub proof fn lemma_cells_fit_bytes(
    frame: FrameView,
    brightness: u8,
    red_shift_fix: bool,
    highlight_wasd: bool,
    split_zone: bool,
    index: int,
)
    requires
        frame.width <= 256,
        frame.height <= 255,
        0 <= index < frame.width * frame.height,
    ensures
        drawn(frame, brightness, red_shift_fix, highlight_wasd, split_zone)[index]
            matches DeviceOp::SetCell { row, col, .. } && 1 <= row <= 255 && col <= 255 && row
            == index / (frame.width as int) + 1 && col == index % (frame.width as int),
{
    let w = frame.width as int;
    let h = frame.height as int;
    assert(w > 0) by (nonlinear_arith)
        requires
            0 <= index < w * h,
            0 <= w,
            0 <= h,
    ;
    vstd::arithmetic::div_mod::lemma_fundamental_div_mod(index, w);
    vstd::arithmetic::div_mod::lemma_mod_bound(index, w);
    vstd::arithmetic::div_mod::lemma_div_pos_is_pos(index, w);
    let y = index / w;
    assert(y < h) by (nonlinear_arith)
        requires
            index == w * y + index % w,
            0 <= index % w,
            index < w * h,
            w > 0,
    ;
}

/// Every grid of the geometry table has at most 17 columns and 6 rows.
pub proof fn lemma_known_grids_are_small(model_name: Seq<char>)
    ensures
        rgb_size_of(model_name) matches Some(size) ==> size.0 <= 17 && size.1 <= 6,
        is_split_zone(model_name) ==> rgb_size_of(model_name) == Some((14u32, 5u32)),
{
    reveal_strlit("Wooting One");
    reveal_strlit("Wooting Two");
    reveal_strlit("Wooting Two LE");
    reveal_strlit("Wooting Two HE");
    reveal_strlit("Wooting Two HE (ARM)");
    reveal_strlit("Wooting 60HE");
    reveal_strlit("Wooting 60HE (ARM)");
    assert("Wooting One"@.len() == 11);
    assert("Wooting Two"@.len() == 11);
    assert("Wooting Two LE"@.len() == 14);
    assert("Wooting Two HE"@.len() == 14);
    assert("Wooting Two HE (ARM)"@.len() == 20);
    assert("Wooting 60HE"@.len() == 12);
    assert("Wooting 60HE (ARM)"@.len() == 18);
}

/// The operations that release the device: reset, forget the colours, close.
pub open spec fn exit_ops() -> Seq<DeviceOp> {
    seq![DeviceOp::Reset, DeviceOp::ResetRgb, DeviceOp::Close]
}

/// The operations that find a keyboard again: disconnect, let it settle, discover.
pub open spec fn discovery_ops() -> Seq<DeviceOp> {
    seq![DeviceOp::Disconnect, DeviceOp::Settle { millis: 50 }, DeviceOp::FindKeyboard]
}

/// The operations of a reconnect: release the device, push the empty state
/// out, then discover the keyboard again and read its model name.
pub open spec fn reconnect_ops() -> Seq<DeviceOp> {
    exit_ops().push(DeviceOp::Commit) + discovery_ops().push(DeviceOp::ReadModel)
}

/// Releases the device.
pub fn exit_rgb() -> (ops: Vec<DeviceOp>)
    ensures
        ops@ == exit_ops(),
{
    let mut ops: Vec<DeviceOp> = Vec::new();
    ops.push(DeviceOp::Reset);
    ops.push(DeviceOp::ResetRgb);
    ops.push(DeviceOp::Close);
    assert(ops@ =~= exit_ops());
    ops
}

/// Makes the colours set so far visible.
pub fn update_rgb() -> (ops: Vec<DeviceOp>)
    ensures
        ops@ == seq![DeviceOp::Commit],
{
    let mut ops: Vec<DeviceOp> = Vec::new();
    ops.push(DeviceOp::Commit);
    assert(ops@ =~= seq![DeviceOp::Commit]);
    ops
}

/// Appends the discovery of the keyboard to a list of operations.
fn push_discovery(ops: &mut Vec<DeviceOp>)
    ensures
        final(ops)@ == old(ops)@ + discovery_ops(),
{
    ops.push(DeviceOp::Disconnect);
    ops.push(DeviceOp::Settle { millis: SETTLE_MILLIS });
    ops.push(DeviceOp::FindKeyboard);
    assert(ops@ =~= old(ops)@ + discovery_ops());
}

/// Discovers the keyboard and reads its model name.
pub fn get_device_name() -> (ops: Vec<DeviceOp>)
    ensures
        ops@ == discovery_ops().push(DeviceOp::ReadModel),
{
    let mut ops: Vec<DeviceOp> = Vec::new();
    push_discovery(&mut ops);
    ops.push(DeviceOp::ReadModel);
    assert(ops@ =~= discovery_ops().push(DeviceOp::ReadModel));
    ops
}

/// Discovers the keyboard and reads the feature report of a command.
pub fn read_report(command: u8) -> (ops: Vec<DeviceOp>)
    ensures
        ops@ == discovery_ops().push(DeviceOp::ReadReport { command }),
{
    let mut ops: Vec<DeviceOp> = Vec::new();
    push_discovery(&mut ops);
    ops.push(DeviceOp::ReadReport { command });
    assert(ops@ =~= discovery_ops().push(DeviceOp::ReadReport { command }));
    ops
}

/// Releases the device and discovers it again.
pub fn reconnect_device() -> (ops: Vec<DeviceOp>)
    ensures
        ops@ == reconnect_ops(),
{
    let mut ops = exit_rgb();
    ops.push(DeviceOp::Commit);
    push_discovery(&mut ops);
    ops.push(DeviceOp::ReadModel);
    assert(ops@ =~= reconnect_ops());
    ops
}

/// Whether every discovery in a list of operations comes after a disconnect.
pub open spec fn disconnects_before_find(ops: Seq<DeviceOp>) -> bool {
    forall|j: int|
        0 <= j < ops.len() && #[trigger] ops[j] == DeviceOp::FindKeyboard ==> exists|i: int|
            0 <= i < j && #[trigger] ops[i] == DeviceOp::Disconnect
}

/// A reconnect, and every query of the device, disconnects before it
/// discovers; a reconnect releases the device before either, and sets no cell.
pub proof fn lemma_reconnect_order(command: u8)
    ensures
        disconnects_before_find(reconnect_ops()),
        forall|i: int| 0 <= i < reconnect_ops().len() ==> !(#[trigger] reconnect_ops()[i] is SetCell),
        disconnects_before_find(discovery_ops().push(DeviceOp::ReadModel)),
        disconnects_before_find(discovery_ops().push(DeviceOp::ReadReport { command })),
        reconnect_ops().subrange(0, 3) == exit_ops(),
{
    let r = reconnect_ops();
    assert(r =~= seq![
        DeviceOp::Reset,
        DeviceOp::ResetRgb,
        DeviceOp::Close,
        DeviceOp::Commit,
        DeviceOp::Disconnect,
        DeviceOp::Settle { millis: 50 },
        DeviceOp::FindKeyboard,
        DeviceOp::ReadModel,
    ]);
    assert(r[4] == DeviceOp::Disconnect);
    assert(r.subrange(0, 3) =~= exit_ops());
    let n = discovery_ops().push(DeviceOp::ReadModel);
    assert(n[0] == DeviceOp::Disconnect);
    let q = discovery_ops().push(DeviceOp::ReadReport { command });
    assert(q[0] == DeviceOp::Disconnect);
}

/// The byte at `index` of a report, or zero where the report is shorter: the
/// buffer that a report is read into starts out as zeros.
pub open spec fn byte_at(response: Seq<u8>, index: int) -> u8 {
    if 0 <= index < response.len() {
        response[index]
    } else {
        0
    }
}

/// Reads [`byte_at`].
fn report_byte(response: &[u8], index: usize) -> (out: u8)
    ensures
        out == byte_at(response@, index as int),
{
    if index < response.len() {
        response[index]
    } else {
        0
    }
}

/// Year of creation in a creation report: byte 7 counts the years since 2000.
pub open spec fn creation_year(response: Seq<u8>) -> nat {
    (2000 + byte_at(response, 7)) as nat
}

/// Week of creation in a creation report: byte 8.
pub open spec fn creation_week(response: Seq<u8>) -> nat {
    byte_at(response, 8) as nat
}

/// Whether a creation report holds no date: week 0 of the year 2000 stands
/// for a read that failed.
pub open spec fn is_unknown_date(response: Seq<u8>) -> bool {
    creation_year(response) == 2000 && creation_week(response) == 0
}

/// The text of a creation date, or `N/A` where the report holds none.
pub open spec fn creation_text(response: Seq<u8>) -> Seq<char> {
    if is_unknown_date(response) {
        "N/A"@
    } else {
        "Week "@ + decimal(creation_week(response)) + " of "@ + decimal(creation_year(response))
    }
}

/// Number of times a creation report is read again before giving up.
pub const CREATION_RETRIES: u8 = 3;

/// What to do after one read of the creation report.
#[derive(Debug)]
pub enum CreationStep {
    /// The answer: the date, or `N/A` after the last retry.
    Final(String),
    /// Read the report again and come back with this depth.
    Retry { depth: u8 },
}

/// Judges one read of the creation report, `depth` retries into the query.
///
/// A report without a date asks for another read while fewer than three
/// retries were made, and gives `N/A` after that. A report with a date gives
/// its text.
pub fn get_device_creation(depth: u8, response: &[u8]) -> (out: CreationStep)
    ensures
        out is Retry <==> is_unknown_date(response@) && depth < 3,
        out matches CreationStep::Retry { depth: next } ==> next == depth + 1,
        out matches CreationStep::Final(text) ==> text@ == creation_text(response@),
{
    let year: u32 = 2000 + report_byte(response, 7) as u32;
    let week: u32 = report_byte(response, 8) as u32;
    if year == 2000 && week == 0 {
        if depth < CREATION_RETRIES {
            CreationStep::Retry { depth: depth + 1 }
        } else {
            CreationStep::Final(String::from_str("N/A"))
        }
    } else {
        let mut text = String::from_str("Week ");
        push_decimal(&mut text, week);
        text.append(" of ");
        push_decimal(&mut text, year);
        CreationStep::Final(text)
    }
}

/// The text of the firmware version in a version report: bytes 5, 6 and 7,
/// separated by dots.
pub open spec fn version_text(response: Seq<u8>) -> Seq<char> {
    decimal(byte_at(response, 5) as nat) + "."@ + decimal(byte_at(response, 6) as nat) + "."@
        + decimal(byte_at(response, 7) as nat)
}

/// Reads the firmware version out of a version report.
pub fn get_device_version(response: &[u8]) -> (out: String)
    ensures
        out@ == version_text(response@),
{
    let mut text = String::new();
    push_decimal(&mut text, report_byte(response, 5) as u32);
    text.append(".");
    push_decimal(&mut text, report_byte(response, 6) as u32);
    text.append(".");
    push_decimal(&mut text, report_byte(response, 7) as u32);
    assert(text@ =~= version_text(response@));
    text
}

} // verus!
