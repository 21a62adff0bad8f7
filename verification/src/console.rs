//! The UART console: splitting a line into words, decimal arguments, and
//! the grammar of console requests.

use vstd::prelude::*;
use vstd::string::StringSliceAdditionalSpecFns;
use crate::interfaces::{Command, ControlMode, ParameterAction, PidBits};
use crate::parameters::{bytes_equal, parameter_named, ParameterId, ParameterKind, ParameterValue};

verus! {

/// ASCII whitespace: space, tab, line feed, form feed, carriage return.
pub open spec fn is_space(byte: u8) -> bool {
    byte == 0x20 || byte == 0x09 || byte == 0x0a || byte == 0x0c || byte == 0x0d
}

/// Length of the run of non-space bytes at the start of `text`.
pub open spec fn word_length(text: Seq<u8>) -> nat
    decreases text.len(),
{
    if text.len() == 0 || is_space(text[0]) {
        0
    } else {
        1 + word_length(text.drop_first())
    }
}

/// The maximal runs of non-space bytes of `text`, in order.
pub open spec fn split_words(text: Seq<u8>) -> Seq<Seq<u8>>
    decreases text.len(),
{
    if text.len() == 0 {
        seq![]
    } else if is_space(text[0]) {
        split_words(text.drop_first())
    } else {
        let n = word_length(text);
        if 0 < n <= text.len() {
            seq![text.take(n as int)] + split_words(text.skip(n as int))
        } else {
            seq![]
        }
    }
}

proof fn lemma_word_length(text: Seq<u8>, n: int)
    requires
        0 <= n <= text.len(),
        forall|k: int| 0 <= k < n ==> !is_space(#[trigger] text[k]),
        n == text.len() || is_space(text[n]),
    ensures
        word_length(text) == n,
    decreases n,
{
    if n > 0 {
        lemma_word_length(text.drop_first(), n - 1);
    }
}

fn is_space_byte(byte: u8) -> (space: bool)
    ensures
        space == is_space(byte),
{
    byte == 0x20 || byte == 0x09 || byte == 0x0a || byte == 0x0c || byte == 0x0d
}

/// `bounds` lists, in order, the start and end offsets of the words of
/// `text`.
pub open spec fn bounds_of_words(text: Seq<u8>, bounds: Seq<(usize, usize)>) -> bool {
    &&& bounds.len() == split_words(text).len()
    &&& forall|i: int|
        0 <= i < bounds.len() ==> {
            &&& (#[trigger] bounds[i]).0 < bounds[i].1 <= text.len()
            &&& text.subrange(bounds[i].0 as int, bounds[i].1 as int) == split_words(text)[i]
        }
}

/// The words of `text` as their start and end offsets.
pub fn word_bounds(text: &[u8]) -> (bounds: Vec<(usize, usize)>)
    ensures
        bounds_of_words(text@, bounds@),
{
    let mut bounds: Vec<(usize, usize)> = Vec::new();
    let mut index: usize = 0;
    let ghost whole = split_words(text@);
    assert(text@.skip(0) =~= text@);
    while index < text.len()
        invariant
            index <= text@.len(),
            whole == split_words(text@),
            bounds@.len() + split_words(text@.skip(index as int)).len() == whole.len(),
            forall|i: int|
                0 <= i < bounds@.len() ==> {
                    &&& (#[trigger] bounds@[i]).0 < bounds@[i].1 <= index
                    &&& text@.subrange(bounds@[i].0 as int, bounds@[i].1 as int) == whole[i]
                },
            forall|j: int|
                0 <= j < split_words(text@.skip(index as int)).len() ==> whole[bounds@.len() + j]
                    == #[trigger] split_words(text@.skip(index as int))[j],
        decreases text@.len() - index,
    {
        let ghost rest = text@.skip(index as int);
        if is_space_byte(text[index]) {
            assert(rest.drop_first() =~= text@.skip(index + 1));
            index += 1;
        } else {
            let start = index;
            let mut end = index + 1;
            while end < text.len() && !is_space_byte(text[end])
                invariant
                    start < end <= text@.len(),
                    forall|k: int| start <= k < end ==> !is_space(#[trigger] text@[k]),
                decreases text@.len() - end,
            {
                end += 1;
            }
            proof {
                assert forall|k: int| 0 <= k < end - start implies !is_space(#[trigger] rest[k]) by {
                    assert(rest[k] == text@[start + k]);
                }
                lemma_word_length(rest, end - start);
                assert(rest.take(end - start) =~= text@.subrange(start as int, end as int));
                assert(rest.skip(end - start) =~= text@.skip(end as int));
                let n = bounds@.len();
                assert(whole[n as int] == split_words(rest)[0]);
                assert forall|j: int|
                    0 <= j < split_words(text@.skip(end as int)).len() implies whole[n + 1 + j]
                    == #[trigger] split_words(text@.skip(end as int))[j] by {
                    assert(split_words(rest)[j + 1] == split_words(text@.skip(end as int))[j]);
                }
            }
            bounds.push((start, end));
            index = end;
        }
    }
    proof {
        assert(text@.skip(index as int).len() == 0);
    }
    bounds
}

pub open spec fn is_digit(byte: u8) -> bool {
    0x30 <= byte <= 0x39
}

pub open spec fn all_digits(text: Seq<u8>) -> bool {
    forall|i: int| 0 <= i < text.len() ==> is_digit(#[trigger] text[i])
}

/// The number that a string of decimal digits denotes.
pub open spec fn decimal_value(digits: Seq<u8>) -> nat
    decreases digits.len(),
{
    if digits.len() == 0 {
        0
    } else {
        decimal_value(digits.drop_last()) * 10 + (digits.last() - 0x30) as nat
    }
}

/// An unsigned decimal no greater than `max`, with an optional leading
/// plus sign, as `str::parse` reads it.
pub open spec fn unsigned_value(word: Seq<u8>, max: nat) -> Option<nat> {
    let digits = if word.len() > 0 && word[0] == 0x2b {
        word.drop_first()
    } else {
        word
    };
    if digits.len() > 0 && all_digits(digits) && decimal_value(digits) <= max {
        Some(decimal_value(digits))
    } else {
        None
    }
}

/// A signed decimal in `-128..=127`, with an optional sign, as
/// `str::parse::<i8>` reads it.
pub open spec fn signed_byte_value(word: Seq<u8>) -> Option<int> {
    if word.len() > 0 && word[0] == 0x2d {
        let digits = word.drop_first();
        if digits.len() > 0 && all_digits(digits) && decimal_value(digits) <= 128 {
            Some(-(decimal_value(digits) as int))
        } else {
            None
        }
    } else {
        match unsigned_value(word, 127) {
            Some(value) => Some(value as int),
            None => None,
        }
    }
}

/// Reads the decimal digits `text[from..to]`; `None` unless there is at
/// least one, all are digits and the number is at most `max`.
fn decimal_digits(text: &[u8], from: usize, to: usize, max: u32) -> (value: Option<u32>)
    requires
        from <= to <= text@.len(),
        max < 0x1_0000,
    ensures
        value == (if from < to && all_digits(text@.subrange(from as int, to as int))
            && decimal_value(text@.subrange(from as int, to as int)) <= max {
            Some(decimal_value(text@.subrange(from as int, to as int)) as u32)
        } else {
            None
        }),
{
    if from == to {
        return None;
    }
    let ghost digits = text@.subrange(from as int, to as int);
    let mut index = from;
    let mut value: u32 = 0;
    while index < to
        invariant
            from <= index <= to <= text@.len(),
            max < 0x1_0000,
            digits == text@.subrange(from as int, to as int),
            all_digits(digits.take(index - from)),
            value == (if decimal_value(digits.take(index - from)) <= max {
                decimal_value(digits.take(index - from)) as int
            } else {
                max + 1
            }),
        decreases to - index,
    {
        let byte = text[index];
        let ghost before = digits.take(index - from);
        let ghost after = digits.take(index - from + 1);
        assert(after.drop_last() =~= before);
        assert(after.last() == byte);
        if byte < 0x30 || byte > 0x39 {
            assert(!is_digit(digits[index - from]));
            return None;
        }
        let next = value * 10 + (byte - 0x30) as u32;
        value = if value > max || next > max {
            max + 1
        } else {
            next
        };
        index += 1;
        assert(all_digits(after)) by {
            assert forall|i: int| 0 <= i < after.len() implies is_digit(#[trigger] after[i]) by {
                if i < before.len() {
                    assert(after[i] == before[i]);
                }
            }
        }
    }
    assert(digits.take(to - from) =~= digits);
    if value > max {
        None
    } else {
        Some(value)
    }
}

/// Reads an unsigned decimal no greater than `max` from `text[from..to]`.
fn parse_unsigned(text: &[u8], from: usize, to: usize, max: u32) -> (value: Option<u32>)
    requires
        from <= to <= text@.len(),
        max < 0x1_0000,
    ensures
        match unsigned_value(text@.subrange(from as int, to as int), max as nat) {
            Some(v) => value == Some(v as u32),
            None => value is None,
        },
{
    let ghost word = text@.subrange(from as int, to as int);
    if from < to && text[from] == 0x2b {
        assert(word.drop_first() =~= text@.subrange(from + 1, to as int));
        decimal_digits(text, from + 1, to, max)
    } else {
        decimal_digits(text, from, to, max)
    }
}

/// Reads a signed decimal in `-128..=127` from `text[from..to]`.
fn parse_signed_byte(text: &[u8], from: usize, to: usize) -> (value: Option<i8>)
    requires
        from <= to <= text@.len(),
    ensures
        match signed_byte_value(text@.subrange(from as int, to as int)) {
            Some(v) => value == Some(v as i8),
            None => value is None,
        },
{
    let ghost word = text@.subrange(from as int, to as int);
    if from < to && text[from] == 0x2d {
        assert(word.drop_first() =~= text@.subrange(from + 1, to as int));
        match decimal_digits(text, from + 1, to, 128) {
            Some(magnitude) => {
                let negated: i16 = 0 - (magnitude as i16);
                Some(negated as i8)
            },
            None => None,
        }
    } else {
        match parse_unsigned(text, from, to, 127) {
            Some(v) => Some(v as i8),
            None => None,
        }
    }
}

#[derive(Clone, Copy, Debug, PartialEq, Eq, Structural)]
pub enum AutoTuneAction {
    Start,
    Stop,
    Status,
}

#[derive(Clone, Copy, Debug, PartialEq, Eq, Structural)]
pub enum ParseError {
    Empty,
    Unknown,
    MissingArgument,
    InvalidArgument,
    ExtraArgument,
}

/// A request typed on the console.
#[derive(Clone, Copy, Debug, PartialEq, Eq, Structural)]
pub enum UartRequest {
    Command(Command),
    Parameter(ParameterAction),
    ParameterShow,
    AutoTune(AutoTuneAction),
    Status,
}

/// The single-precision argument at word `i`: `floats[i]` holds the
/// encoding of the word read as a finite `f32`, or `None` where the word is
/// not one.
pub open spec fn float_arg(words: Seq<Seq<u8>>, floats: Seq<Option<u32>>, i: int) -> Result<u32, ParseError> {
    if i >= words.len() {
        Err(ParseError::MissingArgument)
    } else if i < floats.len() && floats[i] is Some {
        Ok(floats[i]->0)
    } else {
        Err(ParseError::InvalidArgument)
    }
}

/// The `u8` argument at word `i`.
pub open spec fn byte_arg(words: Seq<Seq<u8>>, i: int) -> Result<u8, ParseError> {
    if i >= words.len() {
        Err(ParseError::MissingArgument)
    } else {
        match unsigned_value(words[i], 255) {
            Some(v) => Ok(v as u8),
            None => Err(ParseError::InvalidArgument),
        }
    }
}

/// Five single-precision arguments from word `i` on: gains, output limit
/// and output ramp.
pub open spec fn pid_arg(words: Seq<Seq<u8>>, floats: Seq<Option<u32>>, i: int) -> Result<PidBits, ParseError> {
    match float_arg(words, floats, i) {
        Err(e) => Err(e),
        Ok(kp) => match float_arg(words, floats, i + 1) {
            Err(e) => Err(e),
            Ok(ki) => match float_arg(words, floats, i + 2) {
                Err(e) => Err(e),
                Ok(kd) => match float_arg(words, floats, i + 3) {
                    Err(e) => Err(e),
                    Ok(output_limit) => match float_arg(words, floats, i + 4) {
                        Err(e) => Err(e),
                        Ok(output_ramp) => Ok(PidBits { kp, ki, kd, output_limit, output_ramp }),
                    },
                },
            },
        },
    }
}

/// The value argument at word `i`, read as the given kind.
pub open spec fn value_arg(words: Seq<Seq<u8>>, floats: Seq<Option<u32>>, i: int, kind: ParameterKind) -> Result<ParameterValue, ParseError> {
    if i >= words.len() {
        Err(ParseError::MissingArgument)
    } else {
        match kind {
            ParameterKind::U8 => match unsigned_value(words[i], 255) {
                Some(v) => Ok(ParameterValue::U8(v as u8)),
                None => Err(ParseError::InvalidArgument),
            },
            ParameterKind::I8 => match signed_byte_value(words[i]) {
                Some(v) => Ok(ParameterValue::I8(v as i8)),
                None => Err(ParseError::InvalidArgument),
            },
            ParameterKind::U16 => match unsigned_value(words[i], 65535) {
                Some(v) => Ok(ParameterValue::U16(v as u16)),
                None => Err(ParseError::InvalidArgument),
            },
            ParameterKind::F32 => match float_arg(words, floats, i) {
                Ok(bits) => Ok(ParameterValue::F32(bits)),
                Err(e) => Err(e),
            },
        }
    }
}

/// The `param` requests, with the number of words they use.
pub open spec fn parameter_request_of(words: Seq<Seq<u8>>, floats: Seq<Option<u32>>) -> Result<(UartRequest, nat), ParseError> {
    if words.len() < 2 {
        Err(ParseError::MissingArgument)
    } else if words[1] == "get".spec_bytes() || words[1] == "set".spec_bytes() {
        if words.len() < 3 {
            Err(ParseError::MissingArgument)
        } else {
            match parameter_named(words[2]) {
                None => Err(ParseError::InvalidArgument),
                Some(parameter) => if words[1] == "get".spec_bytes() {
                    Ok((UartRequest::Parameter(ParameterAction::Get(parameter)), 3))
                } else {
                    match value_arg(words, floats, 3, parameter.value_kind()) {
                        Ok(value) => Ok(
                            (UartRequest::Parameter(ParameterAction::SetValue(parameter, value)), 4),
                        ),
                        Err(e) => Err(e),
                    }
                },
            }
        }
    } else if words[1] == "status".spec_bytes() {
        Ok((UartRequest::Parameter(ParameterAction::Status), 2))
    } else if words[1] == "save".spec_bytes() {
        Ok((UartRequest::Parameter(ParameterAction::Save), 2))
    } else if words[1] == "load".spec_bytes() {
        Ok((UartRequest::Parameter(ParameterAction::Load), 2))
    } else if words[1] == "defaults".spec_bytes() {
        Ok((UartRequest::Parameter(ParameterAction::Defaults), 2))
    } else if words[1] == "factory-reset".spec_bytes() {
        Ok((UartRequest::Parameter(ParameterAction::FactoryReset), 2))
    } else if words[1] == "show".spec_bytes() {
        Ok((UartRequest::ParameterShow, 2))
    } else {
        Err(ParseError::InvalidArgument)
    }
}

/// A request built from a command with one argument.
pub open spec fn with_argument<T>(argument: Result<T, ParseError>, build: spec_fn(T) -> Command) -> Result<(UartRequest, nat), ParseError> {
    match argument {
        Ok(value) => Ok((UartRequest::Command(build(value)), 2)),
        Err(e) => Err(e),
    }
}

/// The request named by the first word, with the number of words it uses.
pub open spec fn command_request_of(words: Seq<Seq<u8>>, floats: Seq<Option<u32>>) -> Result<(UartRequest, nat), ParseError> {
    let command = words[0];
    if command == "enable".spec_bytes() || command == "mode".spec_bytes() {
        if words.len() < 2 {
            Err(ParseError::MissingArgument)
        } else if words[1] == "open".spec_bytes() {
            Ok((UartRequest::Command(Command::Enable(ControlMode::OpenLoop)), 2))
        } else if words[1] == "current".spec_bytes() {
            Ok((UartRequest::Command(Command::Enable(ControlMode::Current)), 2))
        } else if words[1] == "velocity".spec_bytes() {
            Ok((UartRequest::Command(Command::Enable(ControlMode::Velocity)), 2))
        } else {
            Err(ParseError::InvalidArgument)
        }
    } else if command == "disable".spec_bytes() {
        Ok((UartRequest::Command(Command::Disable), 1))
    } else if command == "clear".spec_bytes() || command == "clear-fault".spec_bytes() {
        Ok((UartRequest::Command(Command::ClearFault), 1))
    } else if command == "iq".spec_bytes() {
        with_argument(float_arg(words, floats, 1), |v: u32| Command::SetIq(v))
    } else if command == "velocity".spec_bytes() {
        with_argument(float_arg(words, floats, 1), |v: u32| Command::SetVelocity(v))
    } else if command == "open".spec_bytes() {
        match float_arg(words, floats, 1) {
            Err(e) => Err(e),
            Ok(electrical_velocity) => match float_arg(words, floats, 2) {
                Err(e) => Err(e),
                Ok(q_voltage) => Ok(
                    (UartRequest::Command(Command::SetOpenLoop { electrical_velocity, q_voltage }), 3),
                ),
            },
        }
    } else if command == "cells".spec_bytes() {
        with_argument(byte_arg(words, 1), |v: u8| Command::SetCellCount(v))
    } else if command == "zero".spec_bytes() {
        with_argument(float_arg(words, floats, 1), |v: u32| Command::SetElectricalZero(v))
    } else if command == "current-pid".spec_bytes() {
        match pid_arg(words, floats, 1) {
            Ok(pid) => Ok((UartRequest::Command(Command::SetCurrentPid(pid)), 6)),
            Err(e) => Err(e),
        }
    } else if command == "velocity-pid".spec_bytes() {
        match pid_arg(words, floats, 1) {
            Ok(pid) => Ok((UartRequest::Command(Command::SetVelocityPid(pid)), 6)),
            Err(e) => Err(e),
        }
    } else if command == "param".spec_bytes() {
        parameter_request_of(words, floats)
    } else if command == "autotune".spec_bytes() {
        if words.len() < 2 {
            Err(ParseError::MissingArgument)
        } else if words[1] == "start".spec_bytes() {
            Ok((UartRequest::AutoTune(AutoTuneAction::Start), 2))
        } else if words[1] == "stop".spec_bytes() {
            Ok((UartRequest::AutoTune(AutoTuneAction::Stop), 2))
        } else if words[1] == "status".spec_bytes() {
            Ok((UartRequest::AutoTune(AutoTuneAction::Status), 2))
        } else {
            Err(ParseError::InvalidArgument)
        }
    } else if command == "status".spec_bytes() {
        Ok((UartRequest::Status, 1))
    } else {
        Err(ParseError::Unknown)
    }
}

/// The request that a console line's words make: an empty line, an
/// unknown first word, a missing or malformed argument and words left over
/// are each an error.
pub open spec fn uart_request_of(words: Seq<Seq<u8>>, floats: Seq<Option<u32>>) -> Result<UartRequest, ParseError> {
    if words.len() == 0 {
        Err(ParseError::Empty)
    } else {
        match command_request_of(words, floats) {
            Err(e) => Err(e),
            Ok((request, used)) => if words.len() > used {
                Err(ParseError::ExtraArgument)
            } else {
                Ok(request)
            },
        }
    }
}

/// The offsets of word `index`, or `MissingArgument` when the line has
/// fewer words.
pub fn next_word(text: &[u8], bounds: &Vec<(usize, usize)>, index: usize) -> (word: Result<(usize, usize), ParseError>)
    requires
        bounds_of_words(text@, bounds@),
    ensures
        match word {
            Ok((from, to)) => {
                &&& index < split_words(text@).len()
                &&& from < to <= text@.len()
                &&& text@.subrange(from as int, to as int) == split_words(text@)[index as int]
            },
            Err(e) => e == ParseError::MissingArgument && index >= split_words(text@).len(),
        },
{
    if index < bounds.len() {
        Ok(bounds[index])
    } else {
        Err(ParseError::MissingArgument)
    }
}

/// Whether word `index` is `keyword`.
fn word_is(text: &[u8], bounds: &Vec<(usize, usize)>, index: usize, keyword: &str) -> (same: bool)
    requires
        bounds_of_words(text@, bounds@),
        index < split_words(text@).len(),
    ensures
        same == (split_words(text@)[index as int] == keyword.spec_bytes()),
{
    let (from, to) = bounds[index];
    bytes_equal(&text[from..to], keyword.as_bytes())
}

/// The single-precision argument at word `index`.
pub fn next_float(text: &[u8], bounds: &Vec<(usize, usize)>, floats: &[Option<u32>], index: usize) -> (bits: Result<u32, ParseError>)
    requires
        bounds_of_words(text@, bounds@),
    ensures
        bits == float_arg(split_words(text@), floats@, index as int),
{
    if index >= bounds.len() {
        Err(ParseError::MissingArgument)
    } else if index < floats.len() {
        match floats[index] {
            Some(bits) => Ok(bits),
            None => Err(ParseError::InvalidArgument),
        }
    } else {
        Err(ParseError::InvalidArgument)
    }
}

/// The `u8` argument at word `index`.
pub fn next_u8(text: &[u8], bounds: &Vec<(usize, usize)>, index: usize) -> (value: Result<u8, ParseError>)
    requires
        bounds_of_words(text@, bounds@),
    ensures
        value == byte_arg(split_words(text@), index as int),
{
    let (from, to) = match next_word(text, bounds, index) {
        Ok(word) => word,
        Err(e) => {
            return Err(e);
        },
    };
    match parse_unsigned(text, from, to, 255) {
        Some(v) => Ok(v as u8),
        None => Err(ParseError::InvalidArgument),
    }
}

/// Five single-precision arguments from word `index` on.
pub fn next_pid(text: &[u8], bounds: &Vec<(usize, usize)>, floats: &[Option<u32>], index: usize) -> (pid: Result<PidBits, ParseError>)
    requires
        bounds_of_words(text@, bounds@),
        index + 4 <= usize::MAX,
    ensures
        pid == pid_arg(split_words(text@), floats@, index as int),
{
    let kp = match next_float(text, bounds, floats, index) {
        Ok(v) => v,
        Err(e) => {
            return Err(e);
        },
    };
    let ki = match next_float(text, bounds, floats, index + 1) {
        Ok(v) => v,
        Err(e) => {
            return Err(e);
        },
    };
    let kd = match next_float(text, bounds, floats, index + 2) {
        Ok(v) => v,
        Err(e) => {
            return Err(e);
        },
    };
    let output_limit = match next_float(text, bounds, floats, index + 3) {
        Ok(v) => v,
        Err(e) => {
            return Err(e);
        },
    };
    let output_ramp = match next_float(text, bounds, floats, index + 4) {
        Ok(v) => v,
        Err(e) => {
            return Err(e);
        },
    };
    Ok(PidBits { kp, ki, kd, output_limit, output_ramp })
}

/// The value argument at word `index`, read as the given kind.
fn next_value(text: &[u8], bounds: &Vec<(usize, usize)>, floats: &[Option<u32>], index: usize, kind: ParameterKind) -> (value: Result<ParameterValue, ParseError>)
    requires
        bounds_of_words(text@, bounds@),
    ensures
        value == value_arg(split_words(text@), floats@, index as int, kind),
{
    let (from, to) = match next_word(text, bounds, index) {
        Ok(word) => word,
        Err(e) => {
            return Err(e);
        },
    };
    match kind {
        ParameterKind::U8 => match parse_unsigned(text, from, to, 255) {
            Some(v) => Ok(ParameterValue::U8(v as u8)),
            None => Err(ParseError::InvalidArgument),
        },
        ParameterKind::I8 => match parse_signed_byte(text, from, to) {
            Some(v) => Ok(ParameterValue::I8(v)),
            None => Err(ParseError::InvalidArgument),
        },
        ParameterKind::U16 => match parse_unsigned(text, from, to, 65535) {
            Some(v) => Ok(ParameterValue::U16(v as u16)),
            None => Err(ParseError::InvalidArgument),
        },
        ParameterKind::F32 => match next_float(text, bounds, floats, index) {
            Ok(bits) => Ok(ParameterValue::F32(bits)),
            Err(e) => Err(e),
        },
    }
}

/// Parses the words of a `param` request.
fn parse_parameter_request(text: &[u8], bounds: &Vec<(usize, usize)>, floats: &[Option<u32>]) -> (request: Result<(UartRequest, usize), ParseError>)
    requires
        bounds_of_words(text@, bounds@),
    ensures
        match request {
            Ok((request, used)) => parameter_request_of(split_words(text@), floats@) == Ok::<(UartRequest, nat), ParseError>((request, used as nat)),
            Err(e) => parameter_request_of(split_words(text@), floats@) == Err::<(UartRequest, nat), ParseError>(e),
        },
{
    let (from, to) = match next_word(text, bounds, 1) {
        Ok(word) => word,
        Err(e) => {
            return Err(e);
        },
    };
    let action = &text[from..to];
    if bytes_equal(action, "get".as_bytes()) || bytes_equal(action, "set".as_bytes()) {
        let (name_from, name_to) = match next_word(text, bounds, 2) {
            Ok(word) => word,
            Err(e) => {
                return Err(e);
            },
        };
        let parameter = match ParameterId::from_name_bytes(&text[name_from..name_to]) {
            Some(parameter) => parameter,
            None => {
                return Err(ParseError::InvalidArgument);
            },
        };
        if bytes_equal(action, "get".as_bytes()) {
            Ok((UartRequest::Parameter(ParameterAction::Get(parameter)), 3))
        } else {
            match next_value(text, bounds, floats, 3, parameter.kind()) {
                Ok(value) => Ok((UartRequest::Parameter(ParameterAction::SetValue(parameter, value)), 4)),
                Err(e) => Err(e),
            }
        }
    } else if bytes_equal(action, "status".as_bytes()) {
        Ok((UartRequest::Parameter(ParameterAction::Status), 2))
    } else if bytes_equal(action, "save".as_bytes()) {
        Ok((UartRequest::Parameter(ParameterAction::Save), 2))
    } else if bytes_equal(action, "load".as_bytes()) {
        Ok((UartRequest::Parameter(ParameterAction::Load), 2))
    } else if bytes_equal(action, "defaults".as_bytes()) {
        Ok((UartRequest::Parameter(ParameterAction::Defaults), 2))
    } else if bytes_equal(action, "factory-reset".as_bytes()) {
        Ok((UartRequest::Parameter(ParameterAction::FactoryReset), 2))
    } else if bytes_equal(action, "show".as_bytes()) {
        Ok((UartRequest::ParameterShow, 2))
    } else {
        Err(ParseError::InvalidArgument)
    }
}

/// Parses the request named by the first word, returning it with the
/// number of words it uses.
#[verifier::rlimit(40)]
fn parse_command(text: &[u8], bounds: &Vec<(usize, usize)>, floats: &[Option<u32>]) -> (request: Result<(UartRequest, usize), ParseError>)
    requires
        bounds_of_words(text@, bounds@),
        split_words(text@).len() > 0,
    ensures
        match request {
            Ok((request, used)) => command_request_of(split_words(text@), floats@) == Ok::<(UartRequest, nat), ParseError>((request, used as nat)),
            Err(e) => command_request_of(split_words(text@), floats@) == Err::<(UartRequest, nat), ParseError>(e),
        },
{
    let ghost words = split_words(text@);
    if word_is(text, bounds, 0, "enable") || word_is(text, bounds, 0, "mode") {
        let (from, to) = match next_word(text, bounds, 1) {
            Ok(word) => word,
            Err(e) => {
                return Err(e);
            },
        };
        let mode = &text[from..to];
        let mode = if bytes_equal(mode, "open".as_bytes()) {
            ControlMode::OpenLoop
        } else if bytes_equal(mode, "current".as_bytes()) {
            ControlMode::Current
        } else if bytes_equal(mode, "velocity".as_bytes()) {
            ControlMode::Velocity
        } else {
            return Err(ParseError::InvalidArgument);
        };
        Ok((UartRequest::Command(Command::Enable(mode)), 2))
    } else if word_is(text, bounds, 0, "disable") {
        Ok((UartRequest::Command(Command::Disable), 1))
    } else if word_is(text, bounds, 0, "clear") || word_is(text, bounds, 0, "clear-fault") {
        Ok((UartRequest::Command(Command::ClearFault), 1))
    } else if word_is(text, bounds, 0, "iq") {
        match next_float(text, bounds, floats, 1) {
            Ok(v) => Ok((UartRequest::Command(Command::SetIq(v)), 2)),
            Err(e) => Err(e),
        }
    } else if word_is(text, bounds, 0, "velocity") {
        match next_float(text, bounds, floats, 1) {
            Ok(v) => Ok((UartRequest::Command(Command::SetVelocity(v)), 2)),
            Err(e) => Err(e),
        }
    } else if word_is(text, bounds, 0, "open") {
        let electrical_velocity = match next_float(text, bounds, floats, 1) {
            Ok(v) => v,
            Err(e) => {
                return Err(e);
            },
        };
        match next_float(text, bounds, floats, 2) {
            Ok(q_voltage) => Ok(
                (UartRequest::Command(Command::SetOpenLoop { electrical_velocity, q_voltage }), 3),
            ),
            Err(e) => Err(e),
        }
    } else if word_is(text, bounds, 0, "cells") {
        match next_u8(text, bounds, 1) {
            Ok(v) => Ok((UartRequest::Command(Command::SetCellCount(v)), 2)),
            Err(e) => Err(e),
        }
    } else if word_is(text, bounds, 0, "zero") {
        match next_float(text, bounds, floats, 1) {
            Ok(v) => Ok((UartRequest::Command(Command::SetElectricalZero(v)), 2)),
            Err(e) => Err(e),
        }
    } else if word_is(text, bounds, 0, "current-pid") {
        match next_pid(text, bounds, floats, 1) {
            Ok(pid) => Ok((UartRequest::Command(Command::SetCurrentPid(pid)), 6)),
            Err(e) => Err(e),
        }
    } else if word_is(text, bounds, 0, "velocity-pid") {
        match next_pid(text, bounds, floats, 1) {
            Ok(pid) => Ok((UartRequest::Command(Command::SetVelocityPid(pid)), 6)),
            Err(e) => Err(e),
        }
    } else if word_is(text, bounds, 0, "param") {
        parse_parameter_request(text, bounds, floats)
    } else if word_is(text, bounds, 0, "autotune") {
        let (from, to) = match next_word(text, bounds, 1) {
            Ok(word) => word,
            Err(e) => {
                return Err(e);
            },
        };
        let action = &text[from..to];
        let action = if bytes_equal(action, "start".as_bytes()) {
            AutoTuneAction::Start
        } else if bytes_equal(action, "stop".as_bytes()) {
            AutoTuneAction::Stop
        } else if bytes_equal(action, "status".as_bytes()) {
            AutoTuneAction::Status
        } else {
            return Err(ParseError::InvalidArgument);
        };
        Ok((UartRequest::AutoTune(action), 2))
    } else if word_is(text, bounds, 0, "status") {
        Ok((UartRequest::Status, 1))
    } else {
        Err(ParseError::Unknown)
    }
}

/// Parses one console line. `floats` gives, for each word of the line in
/// order, its encoding when the word reads as a finite `f32` and `None`
/// otherwise; words beyond its end count as not finite.
pub fn parse_uart_request(line: &str, floats: &[Option<u32>]) -> (request: Result<UartRequest, ParseError>)
    ensures
        request == uart_request_of(split_words(line.spec_bytes()), floats@),
{
    let text = line.as_bytes();
    let bounds = word_bounds(text);
    if bounds.len() == 0 {
        return Err(ParseError::Empty);
    }
    match parse_command(text, &bounds, floats) {
        Ok((request, used)) => if bounds.len() > used {
            Err(ParseError::ExtraArgument)
        } else {
            Ok(request)
        },
        Err(e) => Err(e),
    }
}

/// Longest console line, in bytes, without its line feed.
pub const UART_LINE_CAPACITY: usize = 128;

/// What one received byte completes.
#[derive(Debug)]
pub enum LineEvent {
    /// Nothing yet.
    Pending,
    /// A line, without its line ending.
    Line(Vec<u8>),
    /// A line longer than the capacity ended; it was dropped.
    TooLong,
}

/// What one received byte does to an assembler holding `pending` (and
/// dropping its line when `dropping`): the new pending bytes, whether the
/// line is now being dropped, and the lines completed, `Some(line)` for a
/// line and `None` for a dropped over-long one.
pub open spec fn feed_byte(pending: Seq<u8>, dropping: bool, byte: u8) -> (Seq<u8>, bool, Seq<Option<Seq<u8>>>) {
    if byte == 0x0d {
        (pending, dropping, seq![])
    } else if byte == 0x0a {
        if dropping {
            (seq![], false, seq![None])
        } else {
            (seq![], false, seq![Some(pending)])
        }
    } else if !dropping && pending.len() < UART_LINE_CAPACITY {
        (pending.push(byte), false, seq![])
    } else {
        (seq![], true, seq![])
    }
}

/// Received bytes fed one by one, from the first.
pub open spec fn feed_bytes(pending: Seq<u8>, dropping: bool, bytes: Seq<u8>) -> (Seq<u8>, bool, Seq<Option<Seq<u8>>>)
    decreases bytes.len(),
{
    if bytes.len() == 0 {
        (pending, dropping, seq![])
    } else {
        let first = feed_byte(pending, dropping, bytes[0]);
        let rest = feed_bytes(first.0, first.1, bytes.drop_first());
        (rest.0, rest.1, first.2 + rest.2)
    }
}

/// The bytes of `text` other than carriage returns.
pub open spec fn without_cr(text: Seq<u8>) -> Seq<u8>
    decreases text.len(),
{
    if text.len() == 0 {
        seq![]
    } else if text[0] == 0x0d {
        without_cr(text.drop_first())
    } else {
        seq![text[0]] + without_cr(text.drop_first())
    }
}

/// The lines a `push` result completes.
pub open spec fn completed_lines(event: LineEvent) -> Seq<Option<Seq<u8>>> {
    match event {
        LineEvent::Pending => seq![],
        LineEvent::Line(line) => seq![Some(line@)],
        LineEvent::TooLong => seq![None],
    }
}

/// Feeding bytes with no line feed completes no line; the line is then
/// dropped exactly when its bytes other than carriage returns overflow
/// the capacity, and otherwise those bytes are pending.
proof fn lemma_feed_partial_line(pending: Seq<u8>, dropping: bool, bytes: Seq<u8>)
    requires
        pending.len() <= UART_LINE_CAPACITY,
        dropping ==> pending.len() == 0,
        forall|i: int| 0 <= i < bytes.len() ==> bytes[i] != 0x0a,
    ensures
        ({
            let fed = feed_bytes(pending, dropping, bytes);
            let overflow = dropping || pending.len() + without_cr(bytes).len() > UART_LINE_CAPACITY;
            &&& fed.2 == Seq::<Option<Seq<u8>>>::empty()
            &&& fed.1 == overflow
            &&& overflow ==> fed.0 == Seq::<u8>::empty()
            &&& !overflow ==> fed.0 == pending + without_cr(bytes)
        }),
    decreases bytes.len(),
{
    if bytes.len() > 0 {
        let first = feed_byte(pending, dropping, bytes[0]);
        let rest = bytes.drop_first();
        assert forall|i: int| 0 <= i < rest.len() implies rest[i] != 0x0a by {
            assert(rest[i] == bytes[i + 1]);
        }
        lemma_feed_partial_line(first.0, first.1, rest);
        if bytes[0] != 0x0d && !dropping && pending.len() < UART_LINE_CAPACITY {
            assert(pending.push(bytes[0]) + without_cr(rest) =~= pending + without_cr(bytes));
        }
        assert(feed_bytes(pending, dropping, bytes).2 =~= first.2 + feed_bytes(first.0, first.1, rest).2);
    }
}

/// A console line is handled by itself: from an empty assembler, a line
/// (bytes with no line feed) followed by its line feed completes exactly
/// one line and leaves the assembler empty and not dropping, so the next
/// line starts afresh. The line is delivered without its carriage returns
/// when those bytes fit in `UART_LINE_CAPACITY`; when more arrive, it is
/// reported as too long and nothing of it is delivered.
pub proof fn lemma_line_is_delivered_or_dropped_whole(line: Seq<u8>)
    requires
        forall|i: int| 0 <= i < line.len() ==> line[i] != 0x0a,
    ensures
        ({
            let fed = feed_bytes(Seq::<u8>::empty(), false, line.push(0x0a));
            &&& fed.0 == Seq::<u8>::empty()
            &&& !fed.1
            &&& without_cr(line).len() <= UART_LINE_CAPACITY ==> fed.2 == seq![Some(without_cr(line))]
            &&& without_cr(line).len() > UART_LINE_CAPACITY ==> fed.2 == seq![None::<Seq<u8>>]
        }),
{
    lemma_feed_split(Seq::<u8>::empty(), false, line, seq![0x0au8]);
    lemma_feed_partial_line(Seq::<u8>::empty(), false, line);
    assert(line.push(0x0a) =~= line + seq![0x0au8]);
    assert(Seq::<u8>::empty() + without_cr(line) =~= without_cr(line));
    let mid = feed_bytes(Seq::<u8>::empty(), false, line);
    let feed = seq![0x0au8];
    let first = feed_byte(mid.0, mid.1, 0x0a);
    assert(feed[0] == 0x0a);
    assert(feed.drop_first() =~= Seq::<u8>::empty());
    assert(feed_bytes(first.0, first.1, feed.drop_first()) == (
        first.0,
        first.1,
        Seq::<Option<Seq<u8>>>::empty(),
    ));
    assert(first.2 + Seq::<Option<Seq<u8>>>::empty() =~= first.2);
    assert(feed_bytes(mid.0, mid.1, feed) == (first.0, first.1, first.2));
    assert(mid.2 + first.2 =~= first.2);
}

/// Over a whole byte stream, lines are handled one at a time: a stream that
/// starts with a line and its line feed completes that line's event first
/// (the line without carriage returns when it fits in `UART_LINE_CAPACITY`,
/// a too-long report otherwise) and then exactly what the rest of the
/// stream completes on its own, so nothing of an over-long line is ever
/// delivered and the next line is read from its first byte.
pub proof fn lemma_stream_of_lines(line: Seq<u8>, rest: Seq<u8>)
    requires
        forall|i: int| 0 <= i < line.len() ==> line[i] != 0x0a,
    ensures
        ({
            let fed = feed_bytes(Seq::<u8>::empty(), false, line.push(0x0a) + rest);
            let after = feed_bytes(Seq::<u8>::empty(), false, rest);
            let event = if without_cr(line).len() <= UART_LINE_CAPACITY {
                Some(without_cr(line))
            } else {
                None
            };
            fed == (after.0, after.1, seq![event] + after.2)
        }),
{
    lemma_line_is_delivered_or_dropped_whole(line);
    lemma_feed_split(Seq::<u8>::empty(), false, line.push(0x0a), rest);
}

/// Feeding two runs of bytes is feeding the first, then the second.
pub proof fn lemma_feed_split(pending: Seq<u8>, dropping: bool, a: Seq<u8>, b: Seq<u8>)
    ensures
        ({
            let first = feed_bytes(pending, dropping, a);
            let second = feed_bytes(first.0, first.1, b);
            feed_bytes(pending, dropping, a + b) == (second.0, second.1, first.2 + second.2)
        }),
    decreases a.len(),
{
    if a.len() > 0 {
        let step = feed_byte(pending, dropping, a[0]);
        lemma_feed_split(step.0, step.1, a.drop_first(), b);
        assert((a + b).drop_first() =~= a.drop_first() + b);
        assert((a + b)[0] == a[0]);
        let first = feed_bytes(step.0, step.1, a.drop_first());
        let second = feed_bytes(first.0, first.1, b);
        assert(step.2 + (first.2 + second.2) =~= (step.2 + first.2) + second.2);
    } else {
        assert(a + b =~= b);
        let second = feed_bytes(pending, dropping, b);
        assert(Seq::<Option<Seq<u8>>>::empty() + second.2 =~= second.2);
    }
}

/// Collects console bytes into lines. Carriage returns are ignored; a line
/// that outgrows `UART_LINE_CAPACITY` is dropped up to its line feed.
pub struct LineAssembler {
    line: Vec<u8>,
    discarding: bool,
}

impl LineAssembler {
    #[verifier::type_invariant]
    spec fn well_formed(self) -> bool {
        &&& self.line@.len() <= UART_LINE_CAPACITY
        &&& self.discarding ==> self.line@.len() == 0
    }

    /// The bytes of the line so far.
    pub closed spec fn pending(&self) -> Seq<u8> {
        self.line@
    }

    /// Whether the current line is being dropped.
    pub closed spec fn dropping(&self) -> bool {
        self.discarding
    }

    pub fn new() -> (assembler: Self)
        ensures
            assembler.pending() == Seq::<u8>::empty(),
            !assembler.dropping(),
    {
        LineAssembler { line: Vec::new(), discarding: false }
    }

    /// Takes one received byte.
    pub fn push(&mut self, byte: u8) -> (event: LineEvent)
        ensures
            (final(self).pending(), final(self).dropping(), completed_lines(event)) == feed_byte(
                old(self).pending(),
                old(self).dropping(),
                byte,
            ),
            final(self).pending().len() <= UART_LINE_CAPACITY,
            byte == 0x0d ==> event is Pending && final(self).pending() == old(self).pending()
                && final(self).dropping() == old(self).dropping(),
            byte == 0x0a && old(self).dropping() ==> event is TooLong && final(self).pending()
                == Seq::<u8>::empty() && !final(self).dropping(),
            byte == 0x0a && !old(self).dropping() ==> (event matches LineEvent::Line(line)
                && line@ == old(self).pending()) && final(self).pending() == Seq::<u8>::empty()
                && !final(self).dropping(),
            byte != 0x0d && byte != 0x0a && !old(self).dropping() && old(self).pending().len()
                < UART_LINE_CAPACITY ==> event is Pending && final(self).pending() == old(
                self,
            ).pending().push(byte) && !final(self).dropping(),
            byte != 0x0d && byte != 0x0a && (old(self).dropping() || old(self).pending().len()
                >= UART_LINE_CAPACITY) ==> event is Pending && final(self).pending()
                == Seq::<u8>::empty() && final(self).dropping(),
    {
        proof {
            use_type_invariant(&*self);
        }
        if byte == 0x0d {
            return LineEvent::Pending;
        }
        if byte == 0x0a {
            if self.discarding {
                *self = LineAssembler { line: Vec::new(), discarding: false };
                return LineEvent::TooLong;
            }
            let mut line = Vec::new();
            std::mem::swap(&mut line, &mut self.line);
            return LineEvent::Line(line);
        }
        if !self.discarding && self.line.len() < UART_LINE_CAPACITY {
            let mut line = Vec::new();
            std::mem::swap(&mut line, &mut self.line);
            line.push(byte);
            self.line = line;
            LineEvent::Pending
        } else {
            *self = LineAssembler { line: Vec::new(), discarding: true };
            LineEvent::Pending
        }
    }
}

/// What the console does with a parsed line.
#[derive(Clone, Copy, Debug)]
pub enum UartAction {
    /// Pass the command to the controller, then reply with the text.
    Send(Command, &'static str),
    /// Ask for a parameter action and reply with its answer.
    Parameter(ParameterAction),
    /// Read every parameter in catalogue order, replying with each.
    ShowParameters,
    /// Reply with the identification status.
    AutoTuneStatus,
    /// Reply with the latest telemetry.
    TelemetryStatus,
    /// Reply with the text only.
    Reply(&'static str),
}

/// What the console does with a parsed line.
pub open spec fn uart_action_of(request: Result<UartRequest, ParseError>) -> UartAction {
    match request {
        Ok(UartRequest::Command(command)) => UartAction::Send(command, "ok\r\n"),
        Ok(UartRequest::Parameter(action)) => UartAction::Parameter(action),
        Ok(UartRequest::ParameterShow) => UartAction::ShowParameters,
        Ok(UartRequest::AutoTune(AutoTuneAction::Start)) => UartAction::Send(
            Command::AutoTuneStart,
            "ok autotune-starting\r\n",
        ),
        Ok(UartRequest::AutoTune(AutoTuneAction::Stop)) => UartAction::Send(
            Command::AutoTuneStop,
            "ok autotune-stopping\r\n",
        ),
        Ok(UartRequest::AutoTune(AutoTuneAction::Status)) => UartAction::AutoTuneStatus,
        Ok(UartRequest::Status) => UartAction::TelemetryStatus,
        Err(_) => UartAction::Reply("error\r\n"),
    }
}

/// What the console does with a parsed line.
pub fn uart_action(request: Result<UartRequest, ParseError>) -> (action: UartAction)
    ensures
        action == uart_action_of(request),
{
    match request {
        Ok(UartRequest::Command(command)) => UartAction::Send(command, "ok\r\n"),
        Ok(UartRequest::Parameter(action)) => UartAction::Parameter(action),
        Ok(UartRequest::ParameterShow) => UartAction::ShowParameters,
        Ok(UartRequest::AutoTune(AutoTuneAction::Start)) => UartAction::Send(
            Command::AutoTuneStart,
            "ok autotune-starting\r\n",
        ),
        Ok(UartRequest::AutoTune(AutoTuneAction::Stop)) => UartAction::Send(
            Command::AutoTuneStop,
            "ok autotune-stopping\r\n",
        ),
        Ok(UartRequest::AutoTune(AutoTuneAction::Status)) => UartAction::AutoTuneStatus,
        Ok(UartRequest::Status) => UartAction::TelemetryStatus,
        Err(_) => UartAction::Reply("error\r\n"),
    }
}

/// An ASCII literal's bytes are its characters, one byte each.
proof fn lemma_ascii_literal(text: &str)
    requires
        vstd::string::is_ascii(text),
    ensures
        text.spec_bytes() == Seq::new(text@.len(), |i: int| text@[i] as u8),
{
    vstd::string::is_ascii_spec_bytes(text);
}

/// The byte lengths of the console's command words, and the second byte
/// of the two eleven-letter ones.
proof fn lemma_command_word_bytes()
    ensures
        "enable".spec_bytes().len() == 6,
        "mode".spec_bytes().len() == 4,
        "disable".spec_bytes().len() == 7,
        "clear".spec_bytes().len() == 5,
        "clear-fault".spec_bytes().len() == 11,
        "iq".spec_bytes().len() == 2,
        "velocity".spec_bytes().len() == 8,
        "open".spec_bytes().len() == 4,
        "cells".spec_bytes().len() == 5,
        "zero".spec_bytes().len() == 4,
        "current-pid".spec_bytes().len() == 11,
        "velocity-pid".spec_bytes().len() == 12,
        "clear-fault".spec_bytes()[1] != "current-pid".spec_bytes()[1],
{
    reveal_strlit("enable");
    lemma_ascii_literal("enable");
    reveal_strlit("mode");
    lemma_ascii_literal("mode");
    reveal_strlit("disable");
    lemma_ascii_literal("disable");
    reveal_strlit("clear");
    lemma_ascii_literal("clear");
    reveal_strlit("clear-fault");
    lemma_ascii_literal("clear-fault");
    reveal_strlit("iq");
    lemma_ascii_literal("iq");
    reveal_strlit("velocity");
    lemma_ascii_literal("velocity");
    reveal_strlit("open");
    lemma_ascii_literal("open");
    reveal_strlit("cells");
    lemma_ascii_literal("cells");
    reveal_strlit("zero");
    lemma_ascii_literal("zero");
    reveal_strlit("current-pid");
    lemma_ascii_literal("current-pid");
    reveal_strlit("velocity-pid");
    lemma_ascii_literal("velocity-pid");
}

/// The gain commands go to their own loop: a console line of
/// `velocity-pid` followed by five finite numbers sets the velocity loop's
/// gains, output limit and output ramp to those numbers in that order, and
/// a line of `current-pid` with five finite numbers sets the current
/// loop's.
pub proof fn lemma_pid_commands_set_their_own_loop(words: Seq<Seq<u8>>, floats: Seq<Option<u32>>)
    requires
        words.len() == 6,
        floats.len() >= 6,
        forall|i: int| 1 <= i < 6 ==> (#[trigger] floats[i]) is Some,
    ensures
        ({
            let pid = PidBits {
                kp: floats[1]->0,
                ki: floats[2]->0,
                kd: floats[3]->0,
                output_limit: floats[4]->0,
                output_ramp: floats[5]->0,
            };
            &&& words[0] == "velocity-pid".spec_bytes() ==> uart_request_of(words, floats) == Ok::<
                UartRequest,
                ParseError,
            >(UartRequest::Command(Command::SetVelocityPid(pid)))
            &&& words[0] == "current-pid".spec_bytes() ==> uart_request_of(words, floats) == Ok::<
                UartRequest,
                ParseError,
            >(UartRequest::Command(Command::SetCurrentPid(pid)))
        }),
{
    lemma_command_word_bytes();
    assert(floats[1] is Some && floats[2] is Some && floats[3] is Some && floats[4] is Some
        && floats[5] is Some);
}

} // verus!
