//! Bounded text output for console replies.

use vstd::prelude::*;
use vstd::string::StringSliceAdditionalSpecFns;
use crate::interfaces::{ParameterAction, ParameterResponse, ParameterResultCode, ParameterStorageStatus};
use crate::parameters::ParameterValue;

verus! {

/// The text did not fit in the buffer.
#[derive(Clone, Copy, Debug, PartialEq, Eq, Structural)]
pub struct FormatError;

/// What writing `pieces` one after another into a buffer of capacity
/// `capacity` holding `text` leaves there, and whether every piece fit:
/// writing stops at the first piece that does not fit.
pub open spec fn append_pieces(text: Seq<u8>, pieces: Seq<Seq<u8>>, capacity: nat) -> (Seq<u8>, bool)
    decreases pieces.len(),
{
    if pieces.len() == 0 {
        (text, true)
    } else if text.len() + pieces[0].len() > capacity {
        (text, false)
    } else {
        append_pieces(text + pieces[0], pieces.drop_first(), capacity)
    }
}

/// The decimal digits of `n`, most significant first.
pub open spec fn decimal_text(n: nat) -> Seq<u8>
    decreases n,
{
    if n < 10 {
        seq![(0x30 + n) as u8]
    } else {
        decimal_text(n / 10).push((0x30 + n % 10) as u8)
    }
}

/// A flag shown as `0` or `1`.
pub open spec fn flag_text(flag: bool) -> Seq<u8> {
    if flag {
        "1".spec_bytes()
    } else {
        "0".spec_bytes()
    }
}

/// Appends the decimal digits of `value`.
pub fn push_decimal(out: &mut Vec<u8>, value: u32)
    ensures
        final(out)@ == old(out)@ + decimal_text(value as nat),
    decreases value,
{
    if value >= 10 {
        push_decimal(out, value / 10);
    }
    out.push(0x30 + (value % 10) as u8);
    assert(final(out)@ =~= old(out)@ + decimal_text(value as nat));
}

/// A text buffer of fixed capacity `N`.
pub struct TextBuffer<const N: usize> {
    bytes: Vec<u8>,
}

impl<const N: usize> TextBuffer<N> {
    /// The text written so far.
    pub closed spec fn text(&self) -> Seq<u8> {
        self.bytes@
    }

    #[verifier::type_invariant]
    spec fn within_capacity(self) -> bool {
        self.bytes@.len() <= N
    }

    pub fn new() -> (buffer: Self)
        ensures
            buffer.text() == Seq::<u8>::empty(),
    {
        TextBuffer { bytes: Vec::new() }
    }

    pub fn as_bytes(&self) -> (bytes: &[u8])
        ensures
            bytes@ == self.text(),
            bytes@.len() <= N,
    {
        proof {
            use_type_invariant(self);
        }
        self.bytes.as_slice()
    }

    /// Appends `piece` when it fits; otherwise leaves the text as it was.
    pub fn write_bytes(&mut self, piece: &[u8]) -> (written: Result<(), FormatError>)
        ensures
            old(self).text().len() + piece@.len() <= N ==> written is Ok && final(self).text()
                == old(self).text() + piece@,
            old(self).text().len() + piece@.len() > N ==> written is Err && final(self).text()
                == old(self).text(),
    {
        proof {
            use_type_invariant(&*self);
        }
        if piece.len() > N - self.bytes.len() {
            return Err(FormatError);
        }
        let mut index: usize = 0;
        let ghost start = self.bytes@;
        while index < piece.len()
            invariant
                index <= piece@.len(),
                start.len() + piece@.len() <= N,
                self.bytes@ == start + piece@.take(index as int),
            decreases piece@.len() - index,
        {
            let byte = piece[index];
            let mut bytes = Vec::new();
            std::mem::swap(&mut bytes, &mut self.bytes);
            bytes.push(byte);
            self.bytes = bytes;
            index += 1;
            assert(self.bytes@ =~= start + piece@.take(index as int));
        }
        assert(piece@.take(index as int) =~= piece@);
        Ok(())
    }

    /// Appends `value` when it fits; otherwise leaves the text as it was.
    pub fn write_str(&mut self, value: &str) -> (written: Result<(), FormatError>)
        ensures
            old(self).text().len() + value.spec_bytes().len() <= N ==> written is Ok
                && final(self).text() == old(self).text() + value.spec_bytes(),
            old(self).text().len() + value.spec_bytes().len() > N ==> written is Err
                && final(self).text() == old(self).text(),
    {
        self.write_bytes(value.as_bytes())
    }

    /// Writes piece `index` of `pieces`, stepping the account of what the
    /// whole sequence leaves behind.
    fn write_piece(&mut self, piece: &[u8], Ghost(pieces): Ghost<Seq<Seq<u8>>>, Ghost(index): Ghost<int>) -> (written: Result<(), FormatError>)
        requires
            0 <= index < pieces.len(),
            pieces[index] == piece@,
        ensures
            written is Ok ==> append_pieces(old(self).text(), pieces.skip(index), N as nat)
                == append_pieces(final(self).text(), pieces.skip(index + 1), N as nat),
            written is Err ==> append_pieces(old(self).text(), pieces.skip(index), N as nat) == (
            final(self).text(), false),
    {
        assert(pieces.skip(index).drop_first() =~= pieces.skip(index + 1));
        self.write_bytes(piece)
    }
}

/// The pieces of a storage status line.
pub open spec fn status_pieces(status: ParameterStorageStatus) -> Seq<Seq<u8>> {
    seq![
        "param-status valid=".spec_bytes(),
        flag_text(status.persisted_valid),
        " source=".spec_bytes(),
        if status.source_defaults {
            "defaults".spec_bytes()
        } else {
            "flash".spec_bytes()
        },
        " generation=".spec_bytes(),
        decimal_text(status.generation as nat),
        " dirty=".spec_bytes(),
        flag_text(status.dirty),
        " restart-required=".spec_bytes(),
        flag_text(status.restart_required),
        "\r\n".spec_bytes(),
    ]
}

fn flag_str(flag: bool) -> (text: &'static str)
    ensures
        text.spec_bytes() == flag_text(flag),
{
    if flag {
        "1"
    } else {
        "0"
    }
}

/// Writes the storage status line, piece by piece: the line when it fits,
/// the pieces that fit before the first that does not otherwise.
pub fn write_parameter_status(status: ParameterStorageStatus, output: &mut TextBuffer<256>) -> (written: Result<(), FormatError>)
    ensures
        append_pieces(old(output).text(), status_pieces(status), 256) == (final(output).text(), written is Ok),
{
    let ghost pieces = status_pieces(status);
    assert(pieces.skip(0) =~= pieces);
    let mut generation: Vec<u8> = Vec::new();
    push_decimal(&mut generation, status.generation);
    assert(generation@ =~= decimal_text(status.generation as nat));
    let source = if status.source_defaults {
        "defaults"
    } else {
        "flash"
    };
    output.write_piece("param-status valid=".as_bytes(), Ghost(pieces), Ghost(0))?;
    output.write_piece(flag_str(status.persisted_valid).as_bytes(), Ghost(pieces), Ghost(1))?;
    output.write_piece(" source=".as_bytes(), Ghost(pieces), Ghost(2))?;
    output.write_piece(source.as_bytes(), Ghost(pieces), Ghost(3))?;
    output.write_piece(" generation=".as_bytes(), Ghost(pieces), Ghost(4))?;
    output.write_piece(generation.as_slice(), Ghost(pieces), Ghost(5))?;
    output.write_piece(" dirty=".as_bytes(), Ghost(pieces), Ghost(6))?;
    output.write_piece(flag_str(status.dirty).as_bytes(), Ghost(pieces), Ghost(7))?;
    output.write_piece(" restart-required=".as_bytes(), Ghost(pieces), Ghost(8))?;
    output.write_piece(flag_str(status.restart_required).as_bytes(), Ghost(pieces), Ghost(9))?;
    output.write_piece("\r\n".as_bytes(), Ghost(pieces), Ghost(10))?;
    assert(pieces.skip(11).len() == 0);
    Ok(())
}

/// The console name of a result code.
pub open spec fn result_text(result: ParameterResultCode) -> Seq<char> {
    match result {
        ParameterResultCode::Success => "success"@,
        ParameterResultCode::Unchanged => "unchanged"@,
        ParameterResultCode::Busy => "busy"@,
        ParameterResultCode::Invalid => "invalid"@,
        ParameterResultCode::NoValidRecord => "no-valid-record"@,
        ParameterResultCode::FlashRead => "flash-read"@,
        ParameterResultCode::FlashErase => "flash-erase"@,
        ParameterResultCode::FlashProgram => "flash-program"@,
        ParameterResultCode::Verify => "verify"@,
        ParameterResultCode::Unknown => "unknown-parameter"@,
        ParameterResultCode::QueueFull => "queue-full"@,
        ParameterResultCode::Conflict => "transaction-conflict"@,
    }
}

/// The console name of a result code.
pub fn result_name(result: ParameterResultCode) -> (name: &'static str)
    ensures
        name@ == result_text(result),
{
    match result {
        ParameterResultCode::Success => "success",
        ParameterResultCode::Unchanged => "unchanged",
        ParameterResultCode::Busy => "busy",
        ParameterResultCode::Invalid => "invalid",
        ParameterResultCode::NoValidRecord => "no-valid-record",
        ParameterResultCode::FlashRead => "flash-read",
        ParameterResultCode::FlashErase => "flash-erase",
        ParameterResultCode::FlashProgram => "flash-program",
        ParameterResultCode::Verify => "verify",
        ParameterResultCode::Unknown => "unknown-parameter",
        ParameterResultCode::QueueFull => "queue-full",
        ParameterResultCode::Conflict => "transaction-conflict",
    }
}

/// The pieces that show a parameter value: decimal integers (a minus sign
/// written on its own before the digits of a negative one), and the given
/// text for a single-precision value.
pub open spec fn value_pieces(value: ParameterValue, float_text: Seq<u8>) -> Seq<Seq<u8>> {
    match value {
        ParameterValue::U8(v) => seq![decimal_text(v as nat)],
        ParameterValue::I8(v) => if v < 0 {
            seq!["-".spec_bytes(), decimal_text((-(v as int)) as nat)]
        } else {
            seq![decimal_text(v as nat)]
        },
        ParameterValue::U16(v) => seq![decimal_text(v as nat)],
        ParameterValue::F32(_) => seq![float_text],
    }
}

fn write_pieces_of_value<const N: usize>(
    output: &mut TextBuffer<N>,
    value: ParameterValue,
    float_text: &str,
    Ghost(pieces): Ghost<Seq<Seq<u8>>>,
    Ghost(start): Ghost<int>,
) -> (written: Result<(), FormatError>)
    requires
        0 <= start,
        start + value_pieces(value, float_text.spec_bytes()).len() <= pieces.len(),
        forall|k: int|
            0 <= k < value_pieces(value, float_text.spec_bytes()).len() ==> pieces[start + k]
                == #[trigger] value_pieces(value, float_text.spec_bytes())[k],
    ensures
        written is Ok ==> append_pieces(old(output).text(), pieces.skip(start), N as nat)
            == append_pieces(
            final(output).text(),
            pieces.skip(start + value_pieces(value, float_text.spec_bytes()).len()),
            N as nat,
        ),
        written is Err ==> append_pieces(old(output).text(), pieces.skip(start), N as nat) == (
        final(output).text(), false),
{
    let ghost shown = value_pieces(value, float_text.spec_bytes());
    match value {
        ParameterValue::U8(v) => {
            let mut digits: Vec<u8> = Vec::new();
            push_decimal(&mut digits, v as u32);
            assert(digits@ =~= shown[0]);
            output.write_piece(digits.as_slice(), Ghost(pieces), Ghost(start))
        },
        ParameterValue::I8(v) => {
            let mut digits: Vec<u8> = Vec::new();
            if v < 0 {
                let magnitude: u32 = (0i32 - v as i32) as u32;
                push_decimal(&mut digits, magnitude);
                assert(digits@ =~= shown[1]);
                assert(pieces[start] == shown[0]);
                output.write_piece("-".as_bytes(), Ghost(pieces), Ghost(start))?;
                output.write_piece(digits.as_slice(), Ghost(pieces), Ghost(start + 1))
            } else {
                push_decimal(&mut digits, v as u32);
                assert(digits@ =~= shown[0]);
                output.write_piece(digits.as_slice(), Ghost(pieces), Ghost(start))
            }
        },
        ParameterValue::U16(v) => {
            let mut digits: Vec<u8> = Vec::new();
            push_decimal(&mut digits, v as u32);
            assert(digits@ =~= shown[0]);
            output.write_piece(digits.as_slice(), Ghost(pieces), Ghost(start))
        },
        ParameterValue::F32(_) => {
            assert(pieces[start] == shown[0]);
            output.write_piece(float_text.as_bytes(), Ghost(pieces), Ghost(start))
        },
    }
}

/// Writes a parameter value; `float_text` is what shows a single-precision
/// value (seven decimals), and is not consulted for integer values.
pub fn write_parameter_value<const N: usize>(output: &mut TextBuffer<N>, value: ParameterValue, float_text: &str) -> (written: Result<(), FormatError>)
    ensures
        append_pieces(old(output).text(), value_pieces(value, float_text.spec_bytes()), N as nat)
            == (final(output).text(), written is Ok),
{
    let ghost pieces = value_pieces(value, float_text.spec_bytes());
    assert(pieces.skip(0) =~= pieces);
    let written = write_pieces_of_value(output, value, float_text, Ghost(pieces), Ghost(0));
    assert(pieces.skip(pieces.len() as int).len() == 0);
    written
}

/// The pieces of a console reply to a parameter request, and whether the
/// reply is whole: a read or a write whose answer carries no value stops
/// after naming the parameter.
pub open spec fn response_pieces(response: ParameterResponse, float_text: Seq<u8>) -> (Seq<Seq<u8>>, bool) {
    let storage = response.storage;
    if response.result != ParameterResultCode::Success && response.result
        != ParameterResultCode::Unchanged {
        (seq!["error ".spec_bytes(), vstd::utf8::encode_utf8(result_text(response.result)), "\r\n".spec_bytes()], true)
    } else {
        match response.action {
            ParameterAction::Get(parameter) => match response.value {
                Some(value) => (
                    seq!["param ".spec_bytes(), vstd::utf8::encode_utf8(parameter.spec_name()), "=".spec_bytes()]
                        + value_pieces(value, float_text) + seq!["\r\n".spec_bytes()],
                    true,
                ),
                None => (seq!["param ".spec_bytes(), vstd::utf8::encode_utf8(parameter.spec_name()), "=".spec_bytes()], false),
            },
            ParameterAction::SetValue(parameter, _) => match response.value {
                Some(value) => (
                    seq!["ok set ".spec_bytes(), vstd::utf8::encode_utf8(parameter.spec_name()), "=".spec_bytes()]
                        + value_pieces(value, float_text) + seq![
                        " dirty=".spec_bytes(),
                        flag_text(storage.dirty),
                        " restart-required=".spec_bytes(),
                        flag_text(storage.restart_required),
                        "\r\n".spec_bytes(),
                    ],
                    true,
                ),
                None => (seq!["ok set ".spec_bytes(), vstd::utf8::encode_utf8(parameter.spec_name()), "=".spec_bytes()], false),
            },
            ParameterAction::Status => (status_pieces(storage), true),
            ParameterAction::Save => (
                seq![
                    "ok ".spec_bytes(),
                    if response.result == ParameterResultCode::Unchanged {
                        "unchanged".spec_bytes()
                    } else {
                        "saved".spec_bytes()
                    },
                    " generation=".spec_bytes(),
                    decimal_text(storage.generation as nat),
                    "\r\n".spec_bytes(),
                ],
                true,
            ),
            ParameterAction::Load => (
                seq![
                    "ok loaded generation=".spec_bytes(),
                    decimal_text(storage.generation as nat),
                    " restart-required=".spec_bytes(),
                    flag_text(storage.restart_required),
                    "\r\n".spec_bytes(),
                ],
                true,
            ),
            ParameterAction::Defaults => (
                seq![
                    "ok defaults dirty=".spec_bytes(),
                    flag_text(storage.dirty),
                    " restart-required=".spec_bytes(),
                    flag_text(storage.restart_required),
                    "\r\n".spec_bytes(),
                ],
                true,
            ),
            ParameterAction::FactoryReset => (
                seq![
                    "ok factory-reset generation=".spec_bytes(),
                    decimal_text(storage.generation as nat),
                    " restart-required=".spec_bytes(),
                    flag_text(storage.restart_required),
                    "\r\n".spec_bytes(),
                ],
                true,
            ),
        }
    }
}

/// Writes the console reply to a parameter request; `float_text` shows a
/// single-precision value and is not consulted otherwise.
#[verifier::rlimit(40)]
pub fn format_parameter_response(response: &ParameterResponse, float_text: &str, output: &mut TextBuffer<256>) -> (written: Result<(), FormatError>)
    ensures
        ({
            let (pieces, whole) = response_pieces(*response, float_text.spec_bytes());
            let (text, fit) = append_pieces(old(output).text(), pieces, 256);
            final(output).text() == text && (written is Ok <==> fit && whole)
        }),
{
    let ghost pieces = response_pieces(*response, float_text.spec_bytes()).0;
    assert(pieces.skip(0) =~= pieces);
    let storage = response.storage;
    if response.result != ParameterResultCode::Success && response.result
        != ParameterResultCode::Unchanged {
        output.write_piece("error ".as_bytes(), Ghost(pieces), Ghost(0))?;
        output.write_piece(result_name(response.result).as_bytes(), Ghost(pieces), Ghost(1))?;
        output.write_piece("\r\n".as_bytes(), Ghost(pieces), Ghost(2))?;
        assert(pieces.skip(3).len() == 0);
        return Ok(());
    }
    match response.action {
        ParameterAction::Get(parameter) => {
            output.write_piece("param ".as_bytes(), Ghost(pieces), Ghost(0))?;
            output.write_piece(parameter.name().as_bytes(), Ghost(pieces), Ghost(1))?;
            output.write_piece("=".as_bytes(), Ghost(pieces), Ghost(2))?;
            let value = match response.value {
                Some(value) => value,
                None => {
                    assert(pieces.skip(3).len() == 0);
                    return Err(FormatError);
                },
            };
            let ghost count: int = value_pieces(value, float_text.spec_bytes()).len() as int;
            write_pieces_of_value(output, value, float_text, Ghost(pieces), Ghost(3))?;
            output.write_piece("\r\n".as_bytes(), Ghost(pieces), Ghost(3 + count))?;
            assert(pieces.skip(4 + count).len() == 0);
            Ok(())
        },
        ParameterAction::SetValue(parameter, _) => {
            output.write_piece("ok set ".as_bytes(), Ghost(pieces), Ghost(0))?;
            output.write_piece(parameter.name().as_bytes(), Ghost(pieces), Ghost(1))?;
            output.write_piece("=".as_bytes(), Ghost(pieces), Ghost(2))?;
            let value = match response.value {
                Some(value) => value,
                None => {
                    assert(pieces.skip(3).len() == 0);
                    return Err(FormatError);
                },
            };
            let ghost count: int = value_pieces(value, float_text.spec_bytes()).len() as int;
            write_pieces_of_value(output, value, float_text, Ghost(pieces), Ghost(3))?;
            output.write_piece(" dirty=".as_bytes(), Ghost(pieces), Ghost(3 + count))?;
            output.write_piece(flag_str(storage.dirty).as_bytes(), Ghost(pieces), Ghost(4 + count))?;
            output.write_piece(" restart-required=".as_bytes(), Ghost(pieces), Ghost(5 + count))?;
            output.write_piece(
                flag_str(storage.restart_required).as_bytes(),
                Ghost(pieces),
                Ghost(6 + count),
            )?;
            output.write_piece("\r\n".as_bytes(), Ghost(pieces), Ghost(7 + count))?;
            assert(pieces.skip(8 + count).len() == 0);
            Ok(())
        },
        ParameterAction::Status => write_parameter_status(storage, output),
        ParameterAction::Save => {
            let outcome = if response.result == ParameterResultCode::Unchanged {
                "unchanged"
            } else {
                "saved"
            };
            let mut generation: Vec<u8> = Vec::new();
            push_decimal(&mut generation, storage.generation);
            assert(generation@ =~= decimal_text(storage.generation as nat));
            output.write_piece("ok ".as_bytes(), Ghost(pieces), Ghost(0))?;
            output.write_piece(outcome.as_bytes(), Ghost(pieces), Ghost(1))?;
            output.write_piece(" generation=".as_bytes(), Ghost(pieces), Ghost(2))?;
            output.write_piece(generation.as_slice(), Ghost(pieces), Ghost(3))?;
            output.write_piece("\r\n".as_bytes(), Ghost(pieces), Ghost(4))?;
            assert(pieces.skip(5).len() == 0);
            Ok(())
        },
        ParameterAction::Load => {
            let mut generation: Vec<u8> = Vec::new();
            push_decimal(&mut generation, storage.generation);
            assert(generation@ =~= decimal_text(storage.generation as nat));
            output.write_piece("ok loaded generation=".as_bytes(), Ghost(pieces), Ghost(0))?;
            output.write_piece(generation.as_slice(), Ghost(pieces), Ghost(1))?;
            output.write_piece(" restart-required=".as_bytes(), Ghost(pieces), Ghost(2))?;
            output.write_piece(
                flag_str(storage.restart_required).as_bytes(),
                Ghost(pieces),
                Ghost(3),
            )?;
            output.write_piece("\r\n".as_bytes(), Ghost(pieces), Ghost(4))?;
            assert(pieces.skip(5).len() == 0);
            Ok(())
        },
        ParameterAction::Defaults => {
            output.write_piece("ok defaults dirty=".as_bytes(), Ghost(pieces), Ghost(0))?;
            output.write_piece(flag_str(storage.dirty).as_bytes(), Ghost(pieces), Ghost(1))?;
            output.write_piece(" restart-required=".as_bytes(), Ghost(pieces), Ghost(2))?;
            output.write_piece(
                flag_str(storage.restart_required).as_bytes(),
                Ghost(pieces),
                Ghost(3),
            )?;
            output.write_piece("\r\n".as_bytes(), Ghost(pieces), Ghost(4))?;
            assert(pieces.skip(5).len() == 0);
            Ok(())
        },
        ParameterAction::FactoryReset => {
            let mut generation: Vec<u8> = Vec::new();
            push_decimal(&mut generation, storage.generation);
            assert(generation@ =~= decimal_text(storage.generation as nat));
            output.write_piece("ok factory-reset generation=".as_bytes(), Ghost(pieces), Ghost(0))?;
            output.write_piece(generation.as_slice(), Ghost(pieces), Ghost(1))?;
            output.write_piece(" restart-required=".as_bytes(), Ghost(pieces), Ghost(2))?;
            output.write_piece(
                flag_str(storage.restart_required).as_bytes(),
                Ghost(pieces),
                Ghost(3),
            )?;
            output.write_piece("\r\n".as_bytes(), Ghost(pieces), Ghost(4))?;
            assert(pieces.skip(5).len() == 0);
            Ok(())
        },
    }
}

} // verus!
