//! Console mode bitmasks and the transformations applied to them.
//!
//! A mode is the 32-bit mask that the console keeps for an input buffer or a
//! screen buffer. The backend never sets a mode outright: it reads the mask,
//! changes the bits it is responsible for and writes the result back, so bits
//! it does not know about (mouse or window-change reporting, say) survive.

use vstd::prelude::*;

verus! {

/// Input: control characters are handled by the system (Ctrl-C raises a signal).
pub const ENABLE_PROCESSED_INPUT: u32 = 0x0001;

/// Input: reads return only once a whole line has been entered.
pub const ENABLE_LINE_INPUT: u32 = 0x0002;

/// Input: typed characters are echoed to the screen.
pub const ENABLE_ECHO_INPUT: u32 = 0x0004;

/// Input: special keys arrive as escape sequences instead of input records.
pub const ENABLE_VIRTUAL_TERMINAL_INPUT: u32 = 0x0200;

/// Output: escape sequences written to the console are interpreted.
pub const ENABLE_VIRTUAL_TERMINAL_PROCESSING: u32 = 0x0004;

/// Output: a line feed no longer returns the cursor to the first column.
pub const DISABLE_NEWLINE_AUTO_RETURN: u32 = 0x0008;

/// The input bits that raw mode clears.
pub const COOKED_INPUT_BITS: u32 = ENABLE_ECHO_INPUT | ENABLE_LINE_INPUT | ENABLE_PROCESSED_INPUT;

/// The output bits that virtual-terminal processing sets.
pub const VT_OUTPUT_BITS: u32 = ENABLE_VIRTUAL_TERMINAL_PROCESSING | DISABLE_NEWLINE_AUTO_RETURN;

/// The input mode with echo, line buffering and signal processing switched off.
pub open spec fn spec_raw_mode_of(mode: u32) -> u32 {
    mode & !COOKED_INPUT_BITS
}

/// The output mode with escape-sequence interpretation switched on and the
/// automatic carriage return on line feed switched off.
pub open spec fn spec_vt_output_mode_of(mode: u32) -> u32 {
    mode | VT_OUTPUT_BITS
}

/// The input mode with escape-sequence key reporting switched on.
pub open spec fn spec_vt_input_mode_of(mode: u32) -> u32 {
    mode | ENABLE_VIRTUAL_TERMINAL_INPUT
}

/// Raw mode for an input buffer whose current mode is `mode`.
#[verifier::when_used_as_spec(spec_raw_mode_of)]
pub fn raw_mode_of(mode: u32) -> (r: u32)
    ensures
        r == spec_raw_mode_of(mode),
{
    mode & !COOKED_INPUT_BITS
}

/// Virtual-terminal processing for a screen buffer whose current mode is `mode`.
#[verifier::when_used_as_spec(spec_vt_output_mode_of)]
pub fn vt_output_mode_of(mode: u32) -> (r: u32)
    ensures
        r == spec_vt_output_mode_of(mode),
{
    mode | VT_OUTPUT_BITS
}

/// Virtual-terminal input for an input buffer whose current mode is `mode`.
#[verifier::when_used_as_spec(spec_vt_input_mode_of)]
pub fn vt_input_mode_of(mode: u32) -> (r: u32)
    ensures
        r == spec_vt_input_mode_of(mode),
{
    mode | ENABLE_VIRTUAL_TERMINAL_INPUT
}

/// `mode` with the bits of `bit` switched on or off.
pub open spec fn spec_with_bit(mode: u32, bit: u32, on: bool) -> u32 {
    if on {
        mode | bit
    } else {
        mode & !bit
    }
}

/// The capabilities that an input mode switches on or off.
#[derive(Clone, Copy, Debug, PartialEq, Eq, Structural)]
pub struct InputFlags {
    pub echo_enabled: bool,
    pub line_buffering_enabled: bool,
    pub signal_processing_enabled: bool,
    pub vt_input_enabled: bool,
}

/// The capabilities that an output mode switches on or off.
#[derive(Clone, Copy, Debug, PartialEq, Eq, Structural)]
pub struct OutputFlags {
    pub vt_output_enabled: bool,
    /// On while the console still returns the cursor on a line feed, that is
    /// while `DISABLE_NEWLINE_AUTO_RETURN` is clear.
    pub auto_newline_translation_enabled: bool,
}

impl InputFlags {
    /// The capabilities that `mode` encodes.
    pub open spec fn spec_of_mode(mode: u32) -> InputFlags {
        InputFlags {
            echo_enabled: mode & ENABLE_ECHO_INPUT != 0,
            line_buffering_enabled: mode & ENABLE_LINE_INPUT != 0,
            signal_processing_enabled: mode & ENABLE_PROCESSED_INPUT != 0,
            vt_input_enabled: mode & ENABLE_VIRTUAL_TERMINAL_INPUT != 0,
        }
    }

    /// `mode` with its four capability bits replaced by those of `self`.
    pub open spec fn spec_apply_to(self, mode: u32) -> u32 {
        spec_with_bit(
            spec_with_bit(
                spec_with_bit(
                    spec_with_bit(mode, ENABLE_ECHO_INPUT, self.echo_enabled),
                    ENABLE_LINE_INPUT,
                    self.line_buffering_enabled,
                ),
                ENABLE_PROCESSED_INPUT,
                self.signal_processing_enabled,
            ),
            ENABLE_VIRTUAL_TERMINAL_INPUT,
            self.vt_input_enabled,
        )
    }

    /// Reads the capabilities out of an input mode.
    #[verifier::when_used_as_spec(spec_of_mode)]
    pub fn of_mode(mode: u32) -> (f: InputFlags)
        ensures
            f == Self::spec_of_mode(mode),
    {
        InputFlags {
            echo_enabled: mode & ENABLE_ECHO_INPUT != 0,
            line_buffering_enabled: mode & ENABLE_LINE_INPUT != 0,
            signal_processing_enabled: mode & ENABLE_PROCESSED_INPUT != 0,
            vt_input_enabled: mode & ENABLE_VIRTUAL_TERMINAL_INPUT != 0,
        }
    }

    /// Writes the capabilities into an input mode, leaving every other bit alone.
    #[verifier::when_used_as_spec(spec_apply_to)]
    pub fn apply_to(self, mode: u32) -> (r: u32)
        ensures
            r == self.spec_apply_to(mode),
    {
        let m1: u32 = with_bit(mode, ENABLE_ECHO_INPUT, self.echo_enabled);
        let m2: u32 = with_bit(m1, ENABLE_LINE_INPUT, self.line_buffering_enabled);
        let m3: u32 = with_bit(m2, ENABLE_PROCESSED_INPUT, self.signal_processing_enabled);
        with_bit(m3, ENABLE_VIRTUAL_TERMINAL_INPUT, self.vt_input_enabled)
    }
}

impl OutputFlags {
    /// The capabilities that `mode` encodes.
    pub open spec fn spec_of_mode(mode: u32) -> OutputFlags {
        OutputFlags {
            vt_output_enabled: mode & ENABLE_VIRTUAL_TERMINAL_PROCESSING != 0,
            auto_newline_translation_enabled: mode & DISABLE_NEWLINE_AUTO_RETURN == 0,
        }
    }

    /// `mode` with its two capability bits replaced by those of `self`.
    pub open spec fn spec_apply_to(self, mode: u32) -> u32 {
        spec_with_bit(
            spec_with_bit(mode, ENABLE_VIRTUAL_TERMINAL_PROCESSING, self.vt_output_enabled),
            DISABLE_NEWLINE_AUTO_RETURN,
            !self.auto_newline_translation_enabled,
        )
    }

    /// Reads the capabilities out of an output mode.
    #[verifier::when_used_as_spec(spec_of_mode)]
    pub fn of_mode(mode: u32) -> (f: OutputFlags)
        ensures
            f == Self::spec_of_mode(mode),
    {
        OutputFlags {
            vt_output_enabled: mode & ENABLE_VIRTUAL_TERMINAL_PROCESSING != 0,
            auto_newline_translation_enabled: mode & DISABLE_NEWLINE_AUTO_RETURN == 0,
        }
    }

    /// Writes the capabilities into an output mode, leaving every other bit alone.
    #[verifier::when_used_as_spec(spec_apply_to)]
    pub fn apply_to(self, mode: u32) -> (r: u32)
        ensures
            r == self.spec_apply_to(mode),
    {
        let m1: u32 = with_bit(mode, ENABLE_VIRTUAL_TERMINAL_PROCESSING, self.vt_output_enabled);
        with_bit(m1, DISABLE_NEWLINE_AUTO_RETURN, !self.auto_newline_translation_enabled)
    }
}

/// Switches the bits of `bit` on or off in `mode`.
#[verifier::when_used_as_spec(spec_with_bit)]
pub fn with_bit(mode: u32, bit: u32, on: bool) -> (r: u32)
    ensures
        r == spec_with_bit(mode, bit, on),
{
    if on {
        mode | bit
    } else {
        mode & !bit
    }
}

/// The modes a terminal deals with: the two in force on the console, and the
/// two it found there when it was made.
#[derive(Clone, Copy, Debug, PartialEq, Eq, Structural)]
pub struct Modes {
    pub input: u32,
    pub output: u32,
    pub saved_input: u32,
    pub saved_output: u32,
}

/// A change of mode that a terminal can be asked for.
#[derive(Clone, Copy, Debug, PartialEq, Eq, Structural)]
pub enum ModeChange {
    RawMode,
    VirtualTerminal,
}

impl Modes {
    /// The modes of a terminal that has just been made on a console in the
    /// given modes: what is saved is what is in force.
    pub open spec fn fresh(input: u32, output: u32) -> Modes {
        Modes { input, output, saved_input: input, saved_output: output }
    }

    /// The modes after one change has gone through.
    pub open spec fn apply(self, change: ModeChange) -> Modes {
        match change {
            ModeChange::RawMode => Modes { input: raw_mode_of(self.input), ..self },
            ModeChange::VirtualTerminal => Modes {
                input: vt_input_mode_of(self.input),
                output: vt_output_mode_of(self.output),
                ..self
            },
        }
    }

    /// The modes after each of `changes` has gone through, in order.
    pub open spec fn apply_each(self, changes: Seq<ModeChange>) -> Modes
        decreases changes.len(),
    {
        if changes.len() == 0 {
            self
        } else {
            self.apply_each(changes.drop_last()).apply(changes.last())
        }
    }

    /// The modes after the saved ones have been put back in force.
    pub open spec fn restored(self) -> Modes {
        Modes { input: self.saved_input, output: self.saved_output, ..self }
    }
}

/// However often and in whatever order a terminal has changed its modes,
/// restoring puts the console back into the modes it was in when the
/// terminal was made.
pub proof fn lemma_restore_undoes_changes(input: u32, output: u32, changes: Seq<ModeChange>)
    ensures
        Modes::fresh(input, output).apply_each(changes).saved_input == input,
        Modes::fresh(input, output).apply_each(changes).saved_output == output,
        Modes::fresh(input, output).apply_each(changes).restored() == Modes::fresh(input, output),
    decreases changes.len(),
{
    if changes.len() > 0 {
        lemma_restore_undoes_changes(input, output, changes.drop_last());
    }
}

/// Asking for raw mode a second time changes nothing.
pub proof fn lemma_second_raw_mode_changes_nothing(modes: Modes)
    ensures
        modes.apply(ModeChange::RawMode).apply(ModeChange::RawMode) == modes.apply(
            ModeChange::RawMode,
        ),
{
    lemma_raw_mode_idempotent(modes.input);
}

/// The four input bits that `InputFlags` describes.
pub const INPUT_FLAG_BITS: u32 = COOKED_INPUT_BITS | ENABLE_VIRTUAL_TERMINAL_INPUT;

/// Switching one bit reads back as that bit's new state and leaves every
/// mask that does not hold the bit as it was.
pub proof fn lemma_with_bit(mode: u32, bit: u32, others: u32, on: bool)
    requires
        bit != 0,
        bit & others == 0,
    ensures
        (with_bit(mode, bit, on) & bit != 0) == on,
        with_bit(mode, bit, on) & others == mode & others,
{
    if on {
        assert((mode | bit) & bit != 0) by (bit_vector)
            requires
                bit != 0,
        ;
        assert((mode | bit) & others == mode & others) by (bit_vector)
            requires
                bit & others == 0,
        ;
    } else {
        assert((mode & !bit) & bit == 0) by (bit_vector);
        assert((mode & !bit) & others == mode & others) by (bit_vector)
            requires
                bit & others == 0,
        ;
    }
}

/// Entering raw mode twice is the same as entering it once.
pub proof fn lemma_raw_mode_idempotent(mode: u32)
    ensures
        raw_mode_of(raw_mode_of(mode)) == raw_mode_of(mode),
{
    assert(spec_raw_mode_of(spec_raw_mode_of(mode)) == spec_raw_mode_of(mode)) by (bit_vector);
}

/// Raw mode switches off echo, line buffering and signal processing, and
/// changes nothing else: what it clears, put back, gives the old mode.
pub proof fn lemma_raw_mode_meaning(mode: u32)
    ensures
        InputFlags::of_mode(raw_mode_of(mode)) == (InputFlags {
            echo_enabled: false,
            line_buffering_enabled: false,
            signal_processing_enabled: false,
            vt_input_enabled: InputFlags::of_mode(mode).vt_input_enabled,
        }),
        raw_mode_of(mode) & !COOKED_INPUT_BITS == mode & !COOKED_INPUT_BITS,
        raw_mode_of(mode) | (mode & COOKED_INPUT_BITS) == mode,
{
    let r = spec_raw_mode_of(mode);
    assert(r & ENABLE_ECHO_INPUT == 0 && r & ENABLE_LINE_INPUT == 0 && r & ENABLE_PROCESSED_INPUT
        == 0 && r & ENABLE_VIRTUAL_TERMINAL_INPUT == mode & ENABLE_VIRTUAL_TERMINAL_INPUT)
        by (bit_vector)
        requires
            r == spec_raw_mode_of(mode),
    ;
    assert(r & !COOKED_INPUT_BITS == mode & !COOKED_INPUT_BITS && r | (mode & COOKED_INPUT_BITS)
        == mode) by (bit_vector)
        requires
            r == spec_raw_mode_of(mode),
    ;
}

/// Virtual-terminal output switches on escape-sequence interpretation,
/// switches off the automatic carriage return, and changes nothing else.
pub proof fn lemma_vt_output_mode_meaning(mode: u32)
    ensures
        OutputFlags::of_mode(vt_output_mode_of(mode)) == (OutputFlags {
            vt_output_enabled: true,
            auto_newline_translation_enabled: false,
        }),
        vt_output_mode_of(mode) & !VT_OUTPUT_BITS == mode & !VT_OUTPUT_BITS,
        vt_output_mode_of(vt_output_mode_of(mode)) == vt_output_mode_of(mode),
{
    let r = spec_vt_output_mode_of(mode);
    assert(r & ENABLE_VIRTUAL_TERMINAL_PROCESSING != 0 && r & DISABLE_NEWLINE_AUTO_RETURN != 0)
        by (bit_vector)
        requires
            r == spec_vt_output_mode_of(mode),
    ;
    assert(r & !VT_OUTPUT_BITS == mode & !VT_OUTPUT_BITS && spec_vt_output_mode_of(r) == r)
        by (bit_vector)
        requires
            r == spec_vt_output_mode_of(mode),
    ;
}

/// Virtual-terminal input switches on escape-sequence key reporting and
/// changes nothing else.
pub proof fn lemma_vt_input_mode_meaning(mode: u32)
    ensures
        InputFlags::of_mode(vt_input_mode_of(mode)) == (InputFlags {
            vt_input_enabled: true,
            ..InputFlags::of_mode(mode)
        }),
        vt_input_mode_of(mode) & !ENABLE_VIRTUAL_TERMINAL_INPUT == mode
            & !ENABLE_VIRTUAL_TERMINAL_INPUT,
        vt_input_mode_of(vt_input_mode_of(mode)) == vt_input_mode_of(mode),
{
    let r = spec_vt_input_mode_of(mode);
    assert(r & ENABLE_VIRTUAL_TERMINAL_INPUT != 0 && r & ENABLE_ECHO_INPUT == mode
        & ENABLE_ECHO_INPUT && r & ENABLE_LINE_INPUT == mode & ENABLE_LINE_INPUT && r
        & ENABLE_PROCESSED_INPUT == mode & ENABLE_PROCESSED_INPUT) by (bit_vector)
        requires
            r == spec_vt_input_mode_of(mode),
    ;
    assert(r & !ENABLE_VIRTUAL_TERMINAL_INPUT == mode & !ENABLE_VIRTUAL_TERMINAL_INPUT
        && spec_vt_input_mode_of(r) == r) by (bit_vector)
        requires
            r == spec_vt_input_mode_of(mode),
    ;
}

/// Raw mode and virtual-terminal input touch different bits, so the order in
/// which they are applied does not matter.
pub proof fn lemma_raw_mode_commutes_with_vt_input(mode: u32)
    ensures
        raw_mode_of(vt_input_mode_of(mode)) == vt_input_mode_of(raw_mode_of(mode)),
{
    assert(spec_raw_mode_of(spec_vt_input_mode_of(mode)) == spec_vt_input_mode_of(
        spec_raw_mode_of(mode),
    )) by (bit_vector);
}

/// Writing capabilities into an input mode and reading them back gives the
/// same capabilities, and no bit outside the four is touched.
pub proof fn lemma_input_flags_apply_then_read(flags: InputFlags, mode: u32)
    ensures
        InputFlags::of_mode(flags.apply_to(mode)) == flags,
        flags.apply_to(mode) & !INPUT_FLAG_BITS == mode & !INPUT_FLAG_BITS,
{
    let m1 = with_bit(mode, ENABLE_ECHO_INPUT, flags.echo_enabled);
    let m2 = with_bit(m1, ENABLE_LINE_INPUT, flags.line_buffering_enabled);
    let m3 = with_bit(m2, ENABLE_PROCESSED_INPUT, flags.signal_processing_enabled);
    let m4 = with_bit(m3, ENABLE_VIRTUAL_TERMINAL_INPUT, flags.vt_input_enabled);
    let rest = !INPUT_FLAG_BITS;
    assert(ENABLE_ECHO_INPUT & !INPUT_FLAG_BITS == 0 && ENABLE_LINE_INPUT & !INPUT_FLAG_BITS == 0
        && ENABLE_PROCESSED_INPUT & !INPUT_FLAG_BITS == 0 && ENABLE_VIRTUAL_TERMINAL_INPUT
        & !INPUT_FLAG_BITS == 0) by (bit_vector);
    assert(ENABLE_LINE_INPUT & ENABLE_ECHO_INPUT == 0 && ENABLE_PROCESSED_INPUT & ENABLE_ECHO_INPUT
        == 0 && ENABLE_VIRTUAL_TERMINAL_INPUT & ENABLE_ECHO_INPUT == 0 && ENABLE_PROCESSED_INPUT
        & ENABLE_LINE_INPUT == 0 && ENABLE_VIRTUAL_TERMINAL_INPUT & ENABLE_LINE_INPUT == 0
        && ENABLE_VIRTUAL_TERMINAL_INPUT & ENABLE_PROCESSED_INPUT == 0) by (bit_vector);
    lemma_with_bit(mode, ENABLE_ECHO_INPUT, rest, flags.echo_enabled);
    lemma_with_bit(m1, ENABLE_LINE_INPUT, rest, flags.line_buffering_enabled);
    lemma_with_bit(m2, ENABLE_PROCESSED_INPUT, rest, flags.signal_processing_enabled);
    lemma_with_bit(m3, ENABLE_VIRTUAL_TERMINAL_INPUT, rest, flags.vt_input_enabled);
    lemma_with_bit(m1, ENABLE_LINE_INPUT, ENABLE_ECHO_INPUT, flags.line_buffering_enabled);
    lemma_with_bit(m2, ENABLE_PROCESSED_INPUT, ENABLE_ECHO_INPUT, flags.signal_processing_enabled);
    lemma_with_bit(m3, ENABLE_VIRTUAL_TERMINAL_INPUT, ENABLE_ECHO_INPUT, flags.vt_input_enabled);
    lemma_with_bit(m2, ENABLE_PROCESSED_INPUT, ENABLE_LINE_INPUT, flags.signal_processing_enabled);
    lemma_with_bit(m3, ENABLE_VIRTUAL_TERMINAL_INPUT, ENABLE_LINE_INPUT, flags.vt_input_enabled);
    lemma_with_bit(m3, ENABLE_VIRTUAL_TERMINAL_INPUT, ENABLE_PROCESSED_INPUT, flags.vt_input_enabled);
}

/// Writing back the capabilities that an input mode already has changes nothing.
pub proof fn lemma_input_flags_read_then_apply(mode: u32)
    ensures
        InputFlags::of_mode(mode).apply_to(mode) == mode,
{
    assert(with_bit(mode, 4u32, mode & 4u32 != 0) == mode) by (bit_vector);
    assert(with_bit(mode, 2u32, mode & 2u32 != 0) == mode) by (bit_vector);
    assert(with_bit(mode, 1u32, mode & 1u32 != 0) == mode) by (bit_vector);
    assert(with_bit(mode, 0x200u32, mode & 0x200u32 != 0) == mode) by (bit_vector);
}

/// Writing capabilities into an output mode and reading them back gives the
/// same capabilities, and no bit outside the two is touched.
pub proof fn lemma_output_flags_apply_then_read(flags: OutputFlags, mode: u32)
    ensures
        OutputFlags::of_mode(flags.apply_to(mode)) == flags,
        flags.apply_to(mode) & !VT_OUTPUT_BITS == mode & !VT_OUTPUT_BITS,
{
    let m1 = with_bit(mode, ENABLE_VIRTUAL_TERMINAL_PROCESSING, flags.vt_output_enabled);
    let rest = !VT_OUTPUT_BITS;
    assert(ENABLE_VIRTUAL_TERMINAL_PROCESSING & !VT_OUTPUT_BITS == 0 && DISABLE_NEWLINE_AUTO_RETURN
        & !VT_OUTPUT_BITS == 0 && DISABLE_NEWLINE_AUTO_RETURN & ENABLE_VIRTUAL_TERMINAL_PROCESSING
        == 0) by (bit_vector);
    lemma_with_bit(mode, ENABLE_VIRTUAL_TERMINAL_PROCESSING, rest, flags.vt_output_enabled);
    lemma_with_bit(m1, DISABLE_NEWLINE_AUTO_RETURN, rest, !flags.auto_newline_translation_enabled);
    lemma_with_bit(
        m1,
        DISABLE_NEWLINE_AUTO_RETURN,
        ENABLE_VIRTUAL_TERMINAL_PROCESSING,
        !flags.auto_newline_translation_enabled,
    );
}

/// Writing back the capabilities that an output mode already has changes nothing.
pub proof fn lemma_output_flags_read_then_apply(mode: u32)
    ensures
        OutputFlags::of_mode(mode).apply_to(mode) == mode,
{
    assert(with_bit(mode, 4u32, mode & 4u32 != 0) == mode) by (bit_vector);
    assert(with_bit(mode, 8u32, !(mode & 8u32 == 0)) == mode) by (bit_vector);
}

} // verus!
