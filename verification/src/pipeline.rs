//! The whole compilation of one parsed program: macro compilation,
//! macro expansion, then code generation.

use vstd::prelude::*;

use crate::ast::{Script, Statement};
use crate::builder::{Builder, BuilderModel};
use crate::macros::{
    first_invocation, first_missing, last_macro_def, macro_defs_compile, strip_decorators,
    strip_macro_declares, MacroExpander, MacroExpansionError,
};
use crate::render::{render_stmts, VisitError};
use crate::visitor::LuaEmitter;

verus! {

/// How a whole compilation fails: in macro processing, or in code
/// generation.  Either way generation stops at once; no partial output
/// is handed out.
#[derive(Debug)]
pub enum CompileError {
    Macro(MacroExpansionError),
    Visit(VisitError),
}

/// The macro names the table defines after phase one of this program.
pub open spec fn macro_def_names(ss: Seq<Statement>) -> Set<Seq<char>> {
    Set::new(|name: Seq<char>| last_macro_def(ss, name) is Some)
}

/// The rendering of a finished program: the two fixed header comment
/// lines, then the statements.
pub open spec fn render_program(ss: Seq<Statement>, b: BuilderModel) -> Result<
    BuilderModel,
    VisitError,
> {
    render_stmts(
        ss,
        b.put("-- Generated by the Saturnus compiler 1.0"@).line().put(
            "-- WARNING! Changes may be discarded at any moment!"@,
        ),
    )
}

/// The accumulator a compilation starts from, given its indentation
/// unit.
pub open spec fn initial_accumulator(ind: Seq<char>) -> BuilderModel {
    BuilderModel { text: Seq::empty(), depth: 0, ind: ind }
}

/// Compiles one program end to end: compiles and strips its macro
/// definitions, expands and drops its decorator statements, and
/// renders what remains to target text with the given indentation
/// unit.
pub fn compile_program(script: Script, indent: String) -> (r: Result<String, CompileError>)
    ensures
        ({
            let ss = script.statements@;
            let defs = macro_def_names(ss);
            let reduced = strip_macro_declares(ss);
            let expanded = strip_decorators(reduced);
            match r {
                Ok(text) => {
                    &&& macro_defs_compile(ss)
                    &&& first_missing(defs, reduced) is None
                    &&& match render_program(expanded, initial_accumulator(indent@)) {
                        Ok(b) => text@ == b.text,
                        Err(_) => false,
                    }
                },
                Err(e) => match e {
                    CompileError::Macro(me) => match me {
                        MacroExpansionError::InvalidCode => !macro_defs_compile(ss),
                        MacroExpansionError::MacroNotDefined(n) => first_missing(defs, reduced)
                            == Some(n@),
                        MacroExpansionError::ExpansionTimeError(_) => match first_invocation(
                            reduced,
                        ) {
                            Some(q) => defs.contains(q.target.0@),
                            None => false,
                        },
                        MacroExpansionError::Unknown => false,
                    },
                    CompileError::Visit(ve) => {
                        &&& macro_defs_compile(ss)
                        &&& first_missing(defs, reduced) is None
                        &&& render_program(expanded, initial_accumulator(indent@)) == Err::<
                            BuilderModel,
                            VisitError,
                        >(ve)
                    },
                },
            }
        }),
{
    let ghost ss = script.statements@;
    let mut expander = MacroExpander::new();
    let reduced = match expander.compile_macros(script) {
        Ok(s) => s,
        Err(e) => {
            return Err(CompileError::Macro(e));
        },
    };
    proof {
        assert forall|name: Seq<char>|
            expander.macros@.dom().contains(name) == macro_def_names(ss).contains(name) by {
            assert(expander.macros@.dom().contains(name) == expander.macros@.contains_key(name));
        }
        assert(expander.macros@.dom() =~= macro_def_names(ss));
    }
    let expanded = match expander.expand_macros(reduced) {
        Ok(s) => s,
        Err(e) => {
            return Err(CompileError::Macro(e));
        },
    };
    let emitter = LuaEmitter::new();
    match emitter.visit_script(Builder::new(indent), &expanded) {
        Ok(b) => Ok(b.collect()),
        Err(e) => Err(CompileError::Visit(e)),
    }
}

} // verus!
