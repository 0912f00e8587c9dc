//! The calls into `rhai`: a script's scope, its compilation and its run.
//!
//! A scope is a list of named values in the order in which they were
//! pushed. Contracts speak of it through [`scope_entries`].

use vstd::prelude::*;

verus! {

/// `rhai::Engine`, carried as an opaque value.
#[verifier::external_type_specification]
#[verifier::external_body]
pub struct ExEngine(rhai::Engine);

/// `rhai::AST`, a compiled script, carried as an opaque value.
#[verifier::external_type_specification]
#[verifier::external_body]
pub struct ExAst(rhai::AST);

/// `rhai::Scope`, a script's variables and constants.
#[verifier::external_type_specification]
#[verifier::external_body]
pub struct ExScope<'a>(rhai::Scope<'a>);

/// `rhai::ParseError`, carried as an opaque value.
#[verifier::external_type_specification]
#[verifier::external_body]
pub struct ExParseError(rhai::ParseError);

/// `rhai::EvalAltResult`, carried as an opaque value.
#[verifier::external_type_specification]
#[verifier::external_body]
pub struct ExEvalAltResult(rhai::EvalAltResult);

/// A value that a script is given.
pub enum ScriptValue {
    Text(Seq<char>),
    Int(i64),
    Flag(bool),
}

/// One entry of a scope.
pub struct ScriptEntry {
    pub name: Seq<char>,
    pub value: ScriptValue,
    pub constant: bool,
}

/// A variable as a scope holds it.
pub open spec fn variable(name: Seq<char>, value: ScriptValue) -> ScriptEntry {
    ScriptEntry { name, value, constant: false }
}

/// A constant as a scope holds it.
pub open spec fn constant(name: Seq<char>, value: i64) -> ScriptEntry {
    ScriptEntry { name, value: ScriptValue::Int(value), constant: true }
}

/// The entries that a scope holds, oldest first.
pub uninterp spec fn scope_entries(scope: rhai::Scope<'static>) -> Seq<ScriptEntry>;

/// `Scope::new`: a scope without entries.
#[verifier::external_body]
pub(crate) fn new_scope() -> (scope: rhai::Scope<'static>)
    ensures
        scope_entries(scope) == Seq::<ScriptEntry>::empty(),
{
    rhai::Scope::new()
}

/// `Scope::push` with a string: adds a variable after the entries that are
/// there.
#[verifier::external_body]
pub(crate) fn push_text(scope: &mut rhai::Scope<'static>, name: &str, value: String)
    ensures
        scope_entries(*final(scope)) == scope_entries(*old(scope)).push(
            variable(name@, ScriptValue::Text(value@)),
        ),
{
    scope.push(name, value);
}

/// `Scope::push` with an integer: adds a variable after the entries that
/// are there.
#[verifier::external_body]
pub(crate) fn push_int(scope: &mut rhai::Scope<'static>, name: &str, value: i64)
    ensures
        scope_entries(*final(scope)) == scope_entries(*old(scope)).push(
            variable(name@, ScriptValue::Int(value)),
        ),
{
    scope.push(name, value);
}

/// `Scope::push` with a boolean: adds a variable after the entries that
/// are there.
#[verifier::external_body]
pub(crate) fn push_flag(scope: &mut rhai::Scope<'static>, name: &str, value: bool)
    ensures
        scope_entries(*final(scope)) == scope_entries(*old(scope)).push(
            variable(name@, ScriptValue::Flag(value)),
        ),
{
    scope.push(name, value);
}

/// `Scope::push_constant` with an integer: adds a constant after the
/// entries that are there.
#[verifier::external_body]
pub(crate) fn push_constant_int(scope: &mut rhai::Scope<'static>, name: &str, value: i64)
    ensures
        scope_entries(*final(scope)) == scope_entries(*old(scope)).push(constant(name@, value)),
{
    scope.push_constant(name, value);
}

/// `Engine::compile`: parses a script. Nothing is promised of the outcome.
#[verifier::external_body]
pub(crate) fn compile_script(engine: &rhai::Engine, script: &str) -> (r: Result<
    rhai::AST,
    rhai::ParseError,
>) {
    engine.compile(script)
}

/// `Engine::call_fn`: runs the script's function `name` without arguments,
/// with the scope's entries in its reach, and reads what it returns as an
/// integer. What a script returns is its own affair, and it may change the
/// scope. A script that loops runs as long as the engine lets it.
#[verifier::external_body]
pub(crate) fn call_script(
    engine: &rhai::Engine,
    scope: &mut rhai::Scope<'static>,
    ast: &rhai::AST,
    name: &str,
) -> (r: Result<i64, Box<rhai::EvalAltResult>>) {
    engine.call_fn::<i64>(scope, ast, name, ())
}

} // verus!
