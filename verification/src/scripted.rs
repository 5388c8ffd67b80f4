//! The scripted-predicate validation strategy.
//!
//! A user-supplied script exposes a callable named `test` that takes the raw
//! payload text and returns a boolean. Every evaluation runs in a fresh,
//! isolated interpreter: no state is shared between test cases, and the
//! script sees nothing of the host beyond the payload argument. What the
//! predicate decides is the script's own affair, so nothing is promised of
//! the boolean that comes back; the pipeline's handling of each possible
//! result is stated and proved where that result is taken as an argument.

use vstd::prelude::*;

verus! {

#[verifier::external_type_specification]
#[verifier::external_body]
pub struct ExLua(mlua::Lua);

#[verifier::external_type_specification]
#[verifier::external_body]
pub struct ExLuaFunction(mlua::Function);

/// Relies on `mlua::Lua::new`: a fresh interpreter loading only the safe
/// standard libraries, sharing no state with any other interpreter.
#[verifier::external_body]
fn lua_new() -> mlua::Lua {
    mlua::Lua::new()
}

/// Relies on `mlua::Chunk::exec` (through `mlua::Lua::load`): runs the
/// script source in the interpreter; a load or runtime error comes back as
/// its message.
#[verifier::external_body]
fn lua_exec(lua: &mlua::Lua, source: &str) -> Result<(), String> {
    match lua.load(source).exec() {
        Ok(()) => Ok(()),
        Err(e) => Err(e.to_string()),
    }
}

/// Relies on `mlua::Table::get` on the globals table: the global named
/// `test`, when it is a function; otherwise the lookup error's message.
#[verifier::external_body]
fn lua_get_test(lua: &mlua::Lua) -> Result<mlua::Function, String> {
    match lua.globals().get::<mlua::Function>("test") {
        Ok(f) => Ok(f),
        Err(e) => Err(e.to_string()),
    }
}

/// Relies on `mlua::Function::call`: applies the predicate to the payload
/// text; an error raised inside the script, or a non-boolean result, comes
/// back as its message.
#[verifier::external_body]
fn lua_call_bool(f: &mlua::Function, arg: &str) -> Result<bool, String> {
    match f.call::<bool>(arg) {
        Ok(b) => Ok(b),
        Err(e) => Err(e.to_string()),
    }
}

/// Run the scripted predicate on one payload, in an interpreter of its own.
/// The result is whatever the script decided: a boolean, or the message of
/// an error raised on the way.
pub fn run_scripted_predicate(script: &str, payload: &str) -> Result<bool, String> {
    let lua = lua_new();
    match lua_exec(&lua, script) {
        Result::Err(m) => Result::Err(m),
        Result::Ok(()) => match lua_get_test(&lua) {
            Result::Err(m) => Result::Err(m),
            Result::Ok(f) => lua_call_bool(&f, payload),
        },
    }
}

} // verus!
