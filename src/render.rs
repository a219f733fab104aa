//! Rendering a decoded instruction as one line of text.
//!
//! The line is the mnemonic, then the first operand and its argument, then,
//! after a comma, the second operand and its argument, then an optional
//! comment. An index argument abuts its operand; an immediate is set off by
//! a space.
use vstd::prelude::*;
use crate::argument::Argument;
use crate::instruction::{
    Comment, Instruction, InstructionView, Postfix, buffer_slice, decode_instruction, decode_spec,
    decodes_as, is_compare_immediate, is_natural_move, lemma_decode_progress,
};
use crate::opcode::OpCode;
use crate::operand::Operand;
use crate::stream::{ByteStream, DecodeError};
use crate::text::decimal_string;
use crate::text::{decimal, hex_byte, push_decimal, push_hex_byte};
use crate::theme::{
    Emit, Options, Role, color_bytecode, color_comment, color_opcode, style,
};

verus! {

/// Column that the hex dump of an instruction's bytes is right-justified to.
pub const BYTECODE_COLUMN: usize = 84;

impl Postfix {
    pub open spec fn spec_text(self) -> Seq<char> {
        match self {
            Postfix::Bits32 => "32"@,
            Postfix::Bits64 => "64"@,
            Postfix::Native => "EX"@,
            Postfix::Absolute => "a"@,
            Postfix::ConditionClear => "cc"@,
            Postfix::ConditionSet => "cs"@,
            Postfix::Byte => "b"@,
            Postfix::Word => "w"@,
            Postfix::Dword => "d"@,
            Postfix::Qword => "q"@,
            Postfix::Eq => "eq"@,
            Postfix::Lte => "lte"@,
            Postfix::Gte => "gte"@,
            Postfix::Ulte => "ulte"@,
            Postfix::Ugte => "ugte"@,
        }
    }

    /// The postfix as printed.
    pub fn text(self) -> (s: &'static str)
        ensures
            s@ == self.spec_text(),
    {
        match self {
            Postfix::Bits32 => "32",
            Postfix::Bits64 => "64",
            Postfix::Native => "EX",
            Postfix::Absolute => "a",
            Postfix::ConditionClear => "cc",
            Postfix::ConditionSet => "cs",
            Postfix::Byte => "b",
            Postfix::Word => "w",
            Postfix::Dword => "d",
            Postfix::Qword => "q",
            Postfix::Eq => "eq",
            Postfix::Lte => "lte",
            Postfix::Gte => "gte",
            Postfix::Ulte => "ulte",
            Postfix::Ugte => "ugte",
        }
    }

    /// The role a postfix is styled with: its width, or the opcode's.
    pub open spec fn spec_role(self) -> Role {
        match self {
            Postfix::Bits32 => Role::X32,
            Postfix::Bits64 => Role::X64,
            Postfix::Native => Role::Opcode,
            Postfix::Absolute => Role::Opcode,
            Postfix::ConditionClear => Role::Opcode,
            Postfix::ConditionSet => Role::Opcode,
            Postfix::Byte => Role::X8,
            Postfix::Word => Role::X16,
            Postfix::Dword => Role::X32,
            Postfix::Qword => Role::X64,
            Postfix::Eq => Role::Opcode,
            Postfix::Lte => Role::Opcode,
            Postfix::Gte => Role::Opcode,
            Postfix::Ulte => Role::Opcode,
            Postfix::Ugte => Role::Opcode,
        }
    }

    #[verifier::when_used_as_spec(spec_role)]
    pub fn role(self) -> (r: Role)
        ensures
            r == self.spec_role(),
    {
        match self {
            Postfix::Bits32 => Role::X32,
            Postfix::Bits64 => Role::X64,
            Postfix::Native => Role::Opcode,
            Postfix::Absolute => Role::Opcode,
            Postfix::ConditionClear => Role::Opcode,
            Postfix::ConditionSet => Role::Opcode,
            Postfix::Byte => Role::X8,
            Postfix::Word => Role::X16,
            Postfix::Dword => Role::X32,
            Postfix::Qword => Role::X64,
            Postfix::Eq => Role::Opcode,
            Postfix::Lte => Role::Opcode,
            Postfix::Gte => Role::Opcode,
            Postfix::Ulte => Role::Opcode,
            Postfix::Ugte => Role::Opcode,
        }
    }
}

impl Comment {
    pub open spec fn spec_text(self) -> Seq<char> {
        match self {
            Comment::RelativeAddress => "Relative Address"@,
            Comment::AbsoluteAddress => "Absolute Address"@,
        }
    }

    pub fn text(self) -> (s: &'static str)
        ensures
            s@ == self.spec_text(),
    {
        match self {
            Comment::RelativeAddress => "Relative Address",
            Comment::AbsoluteAddress => "Absolute Address",
        }
    }
}

/// The part of an operation's name that its postfixes follow: `CMPI` for
/// the immediate comparisons, the name without its width letters for the
/// moves between registers, the whole name otherwise.
pub open spec fn stem(op: OpCode) -> Seq<char> {
    if is_compare_immediate(op) {
        "CMPI"@
    } else if op == OpCode::MOVnw || op == OpCode::MOVnd {
        "MOVn"@
    } else if op == OpCode::MOVsnw || op == OpCode::MOVsnd {
        "MOVsn"@
    } else if op.shape() == 7 {
        "MOV"@
    } else {
        op.mnemonic()
    }
}

fn stem_of(op: OpCode) -> (s: &'static str)
    ensures
        s@ == stem(op),
{
    match op {
        OpCode::CMPIeq | OpCode::CMPIlte | OpCode::CMPIgte | OpCode::CMPIulte | OpCode::CMPIugte => "CMPI",
        OpCode::MOVnw | OpCode::MOVnd => "MOVn",
        OpCode::MOVsnw | OpCode::MOVsnd => "MOVsn",
        OpCode::MOVbw | OpCode::MOVww | OpCode::MOVdw | OpCode::MOVqw | OpCode::MOVbd | OpCode::MOVwd
        | OpCode::MOVdd | OpCode::MOVqd | OpCode::MOVqq => "MOV",
        _ => op.name(),
    }
}

/// The postfixes written one after another.
pub open spec fn postfix_texts(ps: Seq<Postfix>) -> Seq<char>
    decreases ps.len(),
{
    if ps.len() == 0 {
        seq![]
    } else {
        postfix_texts(ps.drop_last()) + ps.last().spec_text()
    }
}

/// The full mnemonic: stem, then postfixes.
pub open spec fn mnemonic_text(op: OpCode, ps: Seq<Postfix>) -> Seq<char> {
    stem(op) + postfix_texts(ps)
}

/// Each byte as two hex digits and a space.
pub open spec fn hex_dump(bytes: Seq<u8>) -> Seq<char>
    decreases bytes.len(),
{
    if bytes.len() == 0 {
        seq![]
    } else {
        hex_dump(bytes.drop_last()) + hex_byte(bytes.last()) + seq![' ']
    }
}

/// `s` padded on the left with spaces to `width` characters.
pub open spec fn justified(s: Seq<char>, width: nat) -> Seq<char> {
    if s.len() < width {
        Seq::new((width - s.len()) as nat, |i: int| ' ') + s
    } else {
        s
    }
}

/// The text of an optional string.
pub open spec fn text_of(s: Option<String>) -> Option<Seq<char>> {
    match s {
        Some(s) => Some(s@),
        None => None,
    }
}

/// The hex dump column, when shown.
pub open spec fn dump_part(show_bytes: bool, bytecode: Seq<u8>) -> Seq<char> {
    if show_bytes {
        justified(hex_dump(bytecode), BYTECODE_COLUMN as nat) + " "@
    } else {
        seq![]
    }
}

/// An operand, after a space.
pub open spec fn operand_part(operand: Option<Operand>) -> Seq<char> {
    match operand {
        Some(o) => " "@ + o.plain(),
        None => seq![],
    }
}

/// An argument: an index abuts what precedes it when `abut` holds, any
/// other argument follows a space.
pub open spec fn argument_part(argument: Option<Argument>, abut: bool) -> Seq<char> {
    match argument {
        Some(a) => if a.is_index() && abut { a.plain() } else { " "@ + a.plain() },
        None => seq![],
    }
}

/// The comma before the second operand or argument, if either is there.
pub open spec fn comma_part(operand2: Option<Operand>, argument2: Option<Argument>) -> Seq<char> {
    if operand2 is Some || argument2 is Some { ","@ } else { seq![] }
}

/// The trailing comment.
pub open spec fn comment_part(comment: Option<Seq<char>>) -> Seq<char> {
    match comment {
        Some(c) => "  ;; "@ + c,
        None => seq![],
    }
}

/// The line printed for an instruction when no theme is set.
pub open spec fn line_text(
    show_bytes: bool,
    bytecode: Seq<u8>,
    instruction: Seq<char>,
    operand1: Option<Operand>,
    argument1: Option<Argument>,
    operand2: Option<Operand>,
    argument2: Option<Argument>,
    comment: Option<Seq<char>>,
) -> Seq<char> {
    dump_part(show_bytes, bytecode) + instruction + operand_part(operand1) + argument_part(argument1, true)
        + comma_part(operand2, argument2) + operand_part(operand2) + argument_part(argument2, operand2 is Some)
        + comment_part(comment) + "\n"@
}

/// The line printed for a decoded instruction when no theme is set.
pub open spec fn instruction_text(show_bytes: bool, v: InstructionView) -> Seq<char> {
    line_text(
        show_bytes,
        v.bytecode,
        mnemonic_text(v.op, v.postfixes),
        v.operand1,
        v.argument1,
        v.operand2,
        v.argument2,
        match v.comment {
            Some(c) => Some(c.spec_text()),
            None => None,
        },
    )
}

/// Text of the bytes in hex, two digits and a space each.
fn hex_dump_string(bytes: &[u8]) -> (s: String)
    ensures
        s@ == hex_dump(bytes@),
{
    proof {
        reveal_strlit(" ");
        assert(" "@ =~= seq![' ']);
    }
    let mut s = String::new();
    let mut i: usize = 0;
    while i < bytes.len()
        invariant
            i <= bytes@.len(),
            " "@ == seq![' '],
            s@ == hex_dump(bytes@.take(i as int)),
        decreases bytes@.len() - i,
    {
        push_hex_byte(&mut s, bytes[i]);
        s.append(" ");
        assert(bytes@.take(i + 1).drop_last() =~= bytes@.take(i as int));
        i = i + 1;
    }
    assert(bytes@.take(bytes@.len() as int) =~= bytes@);
    s
}

/// Pads `s` on the left with spaces to `width` characters.
fn right_justify(s: String, width: usize) -> (r: String)
    ensures
        r@ == justified(s@, width as nat),
{
    proof {
        reveal_strlit(" ");
        assert(" "@ =~= seq![' ']);
    }
    let len = s.as_str().unicode_len();
    let mut r = String::new();
    let mut i: usize = len;
    while i < width
        invariant
            len == s@.len(),
            " "@ == seq![' '],
            len <= i <= width || (len > width && i == len),
            r@ == Seq::new((i - len) as nat, |k: int| ' '),
        decreases width - i,
    {
        r.append(" ");
        i = i + 1;
        assert(r@ =~= Seq::new((i - len) as nat, |k: int| ' '));
    }
    r.append(s.as_str());
    assert(r@ =~= justified(s@, width as nat));
    r
}

fn dump_string(options: &Options, bytecode: &[u8]) -> (out: String)
    ensures
        options.theme is None ==> out@ == dump_part(options.bytecode, bytecode@),
{
    let mut out = String::new();
    if options.bytecode {
        let dump = color_bytecode(hex_dump_string(bytecode), options);
        let dump = right_justify(dump, BYTECODE_COLUMN);
        out.append(dump.as_str());
        out.append(" ");
    }
    proof {
        if options.theme is None {
            assert(out@ =~= dump_part(options.bytecode, bytecode@));
        }
    }
    out
}

fn operand_string(options: &Options, operand: Option<Operand>) -> (out: String)
    ensures
        options.theme is None ==> out@ == operand_part(operand),
{
    let mut out = String::new();
    if let Some(o) = operand {
        out.append(" ");
        out.append(o.emit(options).as_str());
    }
    assert(options.theme is None ==> out@ =~= operand_part(operand));
    out
}

fn argument_string(options: &Options, argument: Option<Argument>, abut: bool) -> (out: String)
    ensures
        options.theme is None ==> out@ == argument_part(argument, abut),
{
    let mut out = String::new();
    if let Some(a) = argument {
        if !(a.is_index() && abut) {
            out.append(" ");
        }
        out.append(a.emit(options).as_str());
    }
    assert(options.theme is None ==> out@ =~= argument_part(argument, abut));
    out
}

fn comment_string(options: &Options, comment: Option<String>) -> (out: String)
    ensures
        options.theme is None ==> out@ == comment_part(
            text_of(comment),
        ),
{
    match comment {
        Some(c) => {
            let mut note = String::from_str("  ;; ");
            note.append(c.as_str());
            color_comment(note, options)
        },
        None => {
            let out = String::new();
            assert(out@ =~= seq![]);
            out
        },
    }
}

/// Writes one line for an instruction: the optional hex dump, the
/// mnemonic `instruction` (postfixes already attached), the operands and
/// their arguments, and the optional comment.
pub fn disassemble_instruction(
    options: &Options,
    bytecode: &[u8],
    instruction: String,
    operand1: Option<Operand>,
    argument1: Option<Argument>,
    operand2: Option<Operand>,
    argument2: Option<Argument>,
    comment: Option<String>,
) -> (out: String)
    ensures
        options.theme is None ==> out@ == line_text(
            options.bytecode,
            bytecode@,
            instruction@,
            operand1,
            argument1,
            operand2,
            argument2,
            text_of(comment),
        ),
{
    let ghost note = text_of(comment);
    let mut out = dump_string(options, bytecode);
    out.append(instruction.as_str());
    out.append(operand_string(options, operand1).as_str());
    out.append(argument_string(options, argument1, true).as_str());
    if operand2.is_some() || argument2.is_some() {
        out.append(",");
    }
    let ghost before_second = out@;
    out.append(operand_string(options, operand2).as_str());
    out.append(argument_string(options, argument2, operand2.is_some()).as_str());
    out.append(comment_string(options, comment).as_str());
    out.append("\n");
    proof {
        if options.theme is None {
            assert(before_second =~= dump_part(options.bytecode, bytecode@) + instruction@ + operand_part(operand1)
                + argument_part(argument1, true) + comma_part(operand2, argument2));
            assert(out@ =~= line_text(
                options.bytecode,
                bytecode@,
                instruction@,
                operand1,
                argument1,
                operand2,
                argument2,
                note,
            ));
        }
    }
    out
}

/// The mnemonic of an instruction, stem and postfixes each styled.
pub fn mnemonic(instruction: &Instruction, options: &Options) -> (s: String)
    ensures
        options.theme is None ==> s@ == mnemonic_text(instruction.op, instruction.postfixes@),
{
    let ghost ps = instruction.postfixes@;
    let mut s = color_opcode(String::from_str(stem_of(instruction.op)), options);
    let mut i: usize = 0;
    while i < instruction.postfixes.len()
        invariant
            i <= ps.len(),
            ps == instruction.postfixes@,
            options.theme is None ==> s@ == stem(instruction.op) + postfix_texts(ps.take(i as int)),
        decreases ps.len() - i,
    {
        let p = instruction.postfixes[i];
        let t = style(String::from_str(p.text()), p.role(), options);
        s.append(t.as_str());
        assert(ps.take(i + 1).drop_last() =~= ps.take(i as int));
        i = i + 1;
    }
    assert(ps.take(ps.len() as int) =~= ps);
    s
}

/// Renders a decoded instruction as one line.
pub fn render(options: &Options, instruction: &Instruction) -> (out: String)
    ensures
        options.theme is None ==> out@ == instruction_text(options.bytecode, instruction@),
{
    let name = mnemonic(instruction, options);
    let comment = match instruction.comment {
        Some(c) => Some(String::from_str(c.text())),
        None => None,
    };
    disassemble_instruction(
        options,
        buffer_slice(&instruction.bytecode),
        name,
        instruction.operand1,
        instruction.argument1,
        instruction.operand2,
        instruction.argument2,
        comment,
    )
}

impl OpCode {
    /// Decodes the next instruction of `bytes` and renders it as a line.
    pub fn disassemble(options: &Options, bytes: &mut ByteStream) -> (r: Result<String, DecodeError>)
        ensures
            match decode_spec(old(bytes).remaining()) {
                Ok((v, n)) => r is Ok && final(bytes).remaining() == old(bytes).remaining().skip(n as int)
                    && (options.theme is None ==> r->Ok_0@ == instruction_text(options.bytecode, v)),
                Err(e) => r == Err::<String, DecodeError>(e),
            },
    {
        let instruction = decode_instruction(bytes)?;
        Ok(render(options, &instruction))
    }
}

impl Emit for OpCode {
    open spec fn plain(&self) -> Seq<char> {
        self.mnemonic()
    }

    fn emit(&self, options: &Options) -> (out: String) {
        color_opcode(String::from_str(self.name()), options)
    }
}

/// The message that reports a decoding error.
pub open spec fn error_text(e: DecodeError) -> Seq<char> {
    match e {
        DecodeError::Completed => "Completed Disassembly"@,
        DecodeError::UnexpectedEnd => "Unexpected end of byte stream"@,
        DecodeError::InvalidOpCode(v) => "Invalid OpCode: "@ + decimal(v as nat),
        DecodeError::ImmediateNotSupported(op) => "Immediate data not supported for "@ + op.mnemonic(),
        DecodeError::ReservedWidth(op) => "Reserved immediate data width for "@ + op.mnemonic(),
        DecodeError::RunawayBreak => "Runaway program break (found 2 zeros in a row, BREAK 0)"@,
    }
}

impl DecodeError {
    /// The message that reports this error.
    pub fn message(&self) -> (s: String)
        ensures
            s@ == error_text(*self),
    {
        match *self {
            DecodeError::Completed => String::from_str("Completed Disassembly"),
            DecodeError::UnexpectedEnd => String::from_str("Unexpected end of byte stream"),
            DecodeError::InvalidOpCode(v) => {
                let mut s = String::from_str("Invalid OpCode: ");
                s.append(decimal_string(v as u64).as_str());
                s
            },
            DecodeError::ImmediateNotSupported(op) => {
                let mut s = String::from_str("Immediate data not supported for ");
                s.append(op.name());
                s
            },
            DecodeError::ReservedWidth(op) => {
                let mut s = String::from_str("Reserved immediate data width for ");
                s.append(op.name());
                s
            },
            DecodeError::RunawayBreak => String::from_str(
                "Runaway program break (found 2 zeros in a row, BREAK 0)",
            ),
        }
    }
}

/// The instructions decoded one after another from the front of `bytes`,
/// and the error that ended decoding (`Completed` when the bytes ran out
/// between two instructions).
pub open spec fn decode_all(bytes: Seq<u8>) -> (Seq<InstructionView>, DecodeError)
    decreases bytes.len(),
{
    match decode_spec(bytes) {
        Ok((v, n)) => if 1 <= n <= bytes.len() {
            let (more, end) = decode_all(bytes.skip(n as int));
            (seq![v] + more, end)
        } else {
            (seq![], DecodeError::Completed)
        },
        Err(e) => (seq![], e),
    }
}

/// Disassembles all of `data`: one line per instruction, in order, and the
/// error that ended the run.
pub fn disassemble_all(options: &Options, data: Vec<u8>) -> (r: (Vec<String>, DecodeError))
    ensures
        r.0@.len() == decode_all(data@).0.len(),
        r.1 == decode_all(data@).1,
        options.theme is None ==> forall|i: int|
            0 <= i < r.0@.len() ==> #[trigger] r.0@[i]@ == instruction_text(options.bytecode, decode_all(data@).0[i]),
{
    let mut bytes = ByteStream::new(data);
    let mut lines: Vec<String> = Vec::new();
    let ghost mut done: Seq<InstructionView> = seq![];
    loop
        invariant
            decode_all(data@).0 == done + decode_all(bytes.remaining()).0,
            decode_all(data@).1 == decode_all(bytes.remaining()).1,
            lines@.len() == done.len(),
            options.theme is None ==> forall|i: int|
                0 <= i < lines@.len() ==> #[trigger] lines@[i]@ == instruction_text(options.bytecode, done[i]),
        decreases bytes.remaining().len(),
    {
        let ghost before = bytes.remaining();
        proof {
            lemma_decode_progress(before);
        }
        match OpCode::disassemble(options, &mut bytes) {
            Ok(line) => {
                let ghost v = decode_spec(before)->Ok_0.0;
                proof {
                    assert(seq![v] + decode_all(bytes.remaining()).0 == decode_all(before).0);
                    assert(done + decode_all(before).0 =~= done.push(v) + decode_all(bytes.remaining()).0);
                    done = done.push(v);
                }
                lines.push(line);
            },
            Err(e) => {
                assert(decode_all(before).0 =~= seq![]);
                assert(done + decode_all(before).0 =~= done);
                return (lines, e);
            },
        }
    }
}

/// Rendering has no hidden state: equal instructions under equal settings
/// give equal lines.
pub proof fn lemma_render_deterministic(show_bytes: bool, a: InstructionView, b: InstructionView)
    requires
        a == b,
    ensures
        instruction_text(show_bytes, a) == instruction_text(show_bytes, b),
{
}

} // verus!
