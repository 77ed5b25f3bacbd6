//! The call adapter: from the host's positional argument lists to typed
//! parameters, and from native results to host values.

use vstd::prelude::*;
use crate::error::BridgeError;
use crate::keys::KeyAction;
use crate::value::Value;

verus! {

/// What the native backend is asked for when a window is created.
#[derive(Clone, Debug, PartialEq, Eq)]
pub struct WindowRequest {
    /// Width in screen coordinates, at least 1.
    pub width: u32,
    /// Height in screen coordinates, at least 1.
    pub height: u32,
    /// The title of the window.
    pub title: String,
}

/// Whether `n` is a window dimension that the native backend can take: a
/// positive number that fits its signed 32-bit size parameter.
pub open spec fn is_dimension(n: int) -> bool {
    1 <= n <= i32::MAX
}

/// Whether the argument list has the shape (integer, integer, text).
pub open spec fn is_window_args(args: Seq<Value>) -> bool {
    &&& args.len() == 3
    &&& args[0].int_of() is Some
    &&& args[1].int_of() is Some
    &&& args[2].text_of() is Some
}

/// How a window-creation argument list fares: an argument error for a wrong
/// shape, a window-creation error for a width or height that is not a
/// dimension, else the width, height and title that it names.
pub open spec fn window_args_outcome(args: Seq<Value>) -> Result<(int, int, Seq<char>), BridgeError> {
    if !is_window_args(args) {
        Err(BridgeError::Argument)
    } else if !is_dimension(args[0].int_of()->Some_0 as int) || !is_dimension(
        args[1].int_of()->Some_0 as int,
    ) {
        Err(BridgeError::WindowCreation)
    } else {
        Ok((args[0].int_of()->Some_0 as int, args[1].int_of()->Some_0 as int, args[2].text_of()->Some_0))
    }
}

/// Unpacks the arguments (width, height, title) of a window creation.
/// A width or height that is zero, negative or too large for the backend is
/// refused here with the window-creation error, and never reaches the backend.
pub fn window_args(args: &Vec<Value>) -> (result: Result<WindowRequest, BridgeError>)
    ensures
        match window_args_outcome(args@) {
            Ok((width, height, title)) => result is Ok && result->Ok_0.width == width
                && result->Ok_0.height == height && result->Ok_0.title@ == title,
            Err(e) => result == Err::<WindowRequest, BridgeError>(e),
        },
{
    if args.len() != 3 {
        return Err(BridgeError::Argument);
    }
    let width: i64 = match args[0].as_int() {
        Ok(n) => n,
        Err(e) => { return Err(e); },
    };
    let height: i64 = match args[1].as_int() {
        Ok(n) => n,
        Err(e) => { return Err(e); },
    };
    let title: String = match args[2].as_str() {
        Ok(s) => s,
        Err(e) => { return Err(e); },
    };
    if width < 1 || width > 0x7fff_ffff || height < 1 || height > 0x7fff_ffff {
        return Err(BridgeError::WindowCreation);
    }
    Ok(WindowRequest { width: width as u32, height: height as u32, title })
}

/// How the argument list of an operation without arguments fares: an
/// argument error unless it is empty.
pub open spec fn no_args_outcome(args: Seq<Value>) -> Result<(), BridgeError> {
    if args.len() == 0 {
        Ok(())
    } else {
        Err(BridgeError::Argument)
    }
}

/// Checks the argument list of an operation that takes no arguments.
pub fn no_args(args: &Vec<Value>) -> (result: Result<(), BridgeError>)
    ensures
        result == no_args_outcome(args@),
{
    if args.len() != 0 {
        return Err(BridgeError::Argument);
    }
    Ok(())
}

/// The handle that a one-argument list names, if it has the shape (integer).
pub open spec fn handle_args_outcome(args: Seq<Value>) -> Result<i64, BridgeError> {
    if args.len() == 1 && args[0].int_of() is Some {
        Ok(args[0].int_of()->Some_0)
    } else {
        Err(BridgeError::Argument)
    }
}

/// Unpacks the argument (handle) of an operation on one window.
pub fn handle_args(args: &Vec<Value>) -> (result: Result<i64, BridgeError>)
    ensures
        result == handle_args_outcome(args@),
{
    if args.len() != 1 {
        return Err(BridgeError::Argument);
    }
    args[0].as_int()
}

/// The handle and key code that a two-argument list names, if it has the
/// shape (integer, integer).
pub open spec fn key_args_outcome(args: Seq<Value>) -> Result<(i64, i64), BridgeError> {
    if args.len() == 2 && args[0].int_of() is Some && args[1].int_of() is Some {
        Ok((args[0].int_of()->Some_0, args[1].int_of()->Some_0))
    } else {
        Err(BridgeError::Argument)
    }
}

/// Unpacks the arguments (handle, key code) of a key query.
pub fn key_args(args: &Vec<Value>) -> (result: Result<(i64, i64), BridgeError>)
    ensures
        result == key_args_outcome(args@),
{
    if args.len() != 2 {
        return Err(BridgeError::Argument);
    }
    let handle: i64 = match args[0].as_int() {
        Ok(n) => n,
        Err(e) => { return Err(e); },
    };
    match args[1].as_int() {
        Ok(code) => Ok((handle, code)),
        Err(e) => Err(e),
    }
}

/// The answer to a close query: the flag that the window reported, or true
/// where there was no window to ask.
pub open spec fn close_reply(flag: Option<bool>) -> Value {
    Value::Boolean(flag is None || flag->Some_0)
}

/// The answer to a key query: true where the window reported the key as
/// pressed or repeating, false for every other state and where there was no
/// window to ask.
pub open spec fn key_reply(action: Option<KeyAction>) -> Value {
    Value::Boolean(action is Some && action->Some_0.is_down())
}

/// Computes [`close_reply`], the host value for a close query.
pub fn should_close_value(flag: Option<bool>) -> (value: Value)
    ensures
        value == close_reply(flag),
{
    match flag {
        Some(requested) => Value::Boolean(requested),
        None => Value::Boolean(true),
    }
}

/// Computes [`key_reply`], the host value for a key query.
pub fn key_value(action: Option<KeyAction>) -> (value: Value)
    ensures
        value == key_reply(action),
{
    match action {
        Some(state) => Value::Boolean(state.held()),
        None => Value::Boolean(false),
    }
}

/// The host value of an operation that only acts, such as presenting a
/// frame or polling for events: the absent value.
pub fn done_value() -> (value: Value)
    ensures
        value == Value::Null,
{
    Value::Null
}

/// The host value for a clock reading, given as the bit pattern of the
/// seconds.
pub fn time_value(seconds_bits: u64) -> (value: Value)
    ensures
        value == Value::Float(seconds_bits),
{
    Value::Float(seconds_bits)
}

/// The host value for the address of the backend's function resolver: the
/// address as an integer of the same bits.
pub fn address_value(address: usize) -> (value: Value)
    ensures
        value == Value::Integer(address as i64),
{
    Value::Integer(address as i64)
}

} // verus!
