//! The macro expansion engine.
//!
//! Phase one compiles every macro definition to invocable target code
//! and strips it from the program; phase two runs each decorator's
//! macro invocations, in order, inside a sandboxed interpreter, against
//! the serialized form of the decorated statement.  The evaluation's
//! result is deliberately discarded rather than spliced back: the
//! discard site in [`MacroExpander::expand_macros`] is the seam where a
//! replacement could later be captured.

use vstd::prelude::*;

use crate::ast::{Function, IdentifierOrCall, Script, Statement};
use crate::builder::{Builder, BuilderModel};
use crate::render::{render_fn, VisitError};
use crate::serialize::serialize_statement;
use crate::visitor::LuaEmitter;
use vstd::string::StringExecFns;

verus! {

/// How macro processing fails.
#[derive(Debug)]
pub enum MacroExpansionError {
    /// A failure with no more precise description.
    Unknown,
    /// A macro definition's body could not be compiled to target code.
    InvalidCode,
    /// A decorator referenced a macro name with no definition; carries
    /// that name.
    MacroNotDefined(String),
    /// The sandboxed evaluation of a macro invocation failed; carries
    /// the underlying cause's message when one exists.
    ExpansionTimeError(Option<String>),
}

/// The target code a macro definition compiles to, with the fixed
/// two-space indentation unit macro compilation uses.
pub open spec fn compiled_macro_code(f: Function) -> Result<Seq<char>, VisitError> {
    match render_fn(f, BuilderModel { text: Seq::empty(), depth: 0, ind: "  "@ }) {
        Ok(b) => Ok(b.text),
        Err(e) => Err(e),
    }
}

/// A compiled macro: the original definition together with the target
/// code it was rendered to, built once and reused across invocations.
pub struct MacroData {
    pub func: Function,
    pub runtime_code: String,
}

impl MacroData {
    /// Compiles one macro definition to invocable target code.
    pub fn compiled(func: Function) -> (r: Result<MacroData, MacroExpansionError>)
        ensures
            match r {
                Ok(md) => md.func == func && compiled_macro_code(func) == Ok::<
                    Seq<char>,
                    VisitError,
                >(md.runtime_code@),
                Err(e) => e is InvalidCode && compiled_macro_code(func) is Err,
            },
    {
        let ctx = Builder::new("  ".to_owned());
        match LuaEmitter::new().visit_fn(ctx, &func) {
            Ok(b) => Ok(MacroData { runtime_code: b.collect(), func }),
            Err(_) => Err(MacroExpansionError::InvalidCode),
        }
    }
}

// ---------------------------------------------------------------------
// The macro table: keyed by name alone, last write wins.
// ---------------------------------------------------------------------

/// The table entries as a map; a later entry for a name overwrites an
/// earlier one.
pub open spec fn entries_map(s: Seq<(String, MacroData)>) -> Map<Seq<char>, MacroData>
    decreases s.len(),
{
    if s.len() == 0 {
        Map::empty()
    } else {
        entries_map(s.drop_last()).insert(s.last().0@, s.last().1)
    }
}

/// Lookup over the entries, latest entry first.
pub open spec fn entries_lookup(s: Seq<(String, MacroData)>, k: Seq<char>) -> Option<MacroData>
    decreases s.len(),
{
    if s.len() == 0 {
        None
    } else if s.last().0@ == k {
        Some(s.last().1)
    } else {
        entries_lookup(s.drop_last(), k)
    }
}

proof fn lemma_lookup_map(s: Seq<(String, MacroData)>, k: Seq<char>)
    ensures
        match entries_lookup(s, k) {
            Some(d) => entries_map(s).contains_key(k) && entries_map(s)[k] == d,
            None => !entries_map(s).contains_key(k),
        },
    decreases s.len(),
{
    if s.len() > 0 {
        lemma_lookup_map(s.drop_last(), k);
    }
}

/// The macro table: an explicit value owned by one expansion engine
/// instance, keyed by macro name with last-write-wins insertion.
pub struct MacroTable {
    entries: Vec<(String, MacroData)>,
}

impl View for MacroTable {
    type V = Map<Seq<char>, MacroData>;

    closed spec fn view(&self) -> Map<Seq<char>, MacroData> {
        entries_map(self.entries@)
    }
}

impl MacroTable {
    /// An empty table.
    pub fn new() -> (r: MacroTable)
        ensures
            r@ == Map::<Seq<char>, MacroData>::empty(),
    {
        MacroTable { entries: Vec::new() }
    }

    /// Looks a macro up by name.
    #[verifier::loop_isolation(false)]
    pub fn get(&self, name: &String) -> (r: Option<&MacroData>)
        ensures
            match r {
                Some(d) => self@.contains_key(name@) && *d == self@[name@],
                None => !self@.contains_key(name@),
            },
    {
        let n = self.entries.len();
        let mut i: usize = n;
        proof {
            assert(self.entries@.take(n as int) =~= self.entries@);
        }
        while i > 0
            invariant
                0 <= i <= n,
                entries_lookup(self.entries@, name@) == entries_lookup(
                    self.entries@.take(i as int),
                    name@,
                ),
            decreases i,
        {
            i = i - 1;
            proof {
                let pre = self.entries@.take(i as int + 1);
                assert(pre.drop_last() =~= self.entries@.take(i as int));
                assert(pre.last() == self.entries@[i as int]);
            }
            if crate::helpers::str_eq(self.entries[i].0.as_str(), name.as_str()) {
                proof {
                    lemma_lookup_map(self.entries@, name@);
                }
                return Some(&self.entries[i].1);
            }
        }
        proof {
            assert(self.entries@.take(0).len() == 0);
            lemma_lookup_map(self.entries@, name@);
        }
        None
    }

    /// Inserts or overwrites the entry for a name.
    pub fn insert(&mut self, name: String, data: MacroData)
        ensures
            final(self)@ == old(self)@.insert(name@, data),
    {
        let ghost before = self.entries@;
        self.entries.push((name, data));
        proof {
            assert(self.entries@.drop_last() =~= before);
        }
    }
}

// ---------------------------------------------------------------------
// The shape of a program as the expansion engine sees it.
// ---------------------------------------------------------------------

/// The statements that survive phase one: everything but the macro
/// definitions, in their original order.
pub open spec fn strip_macro_declares(ss: Seq<Statement>) -> Seq<Statement>
    decreases ss.len(),
{
    if ss.len() == 0 {
        Seq::empty()
    } else {
        strip_macro_declares(ss.drop_last()) + (if ss.last() is MacroDeclare {
            Seq::<Statement>::empty()
        } else {
            seq![ss.last()]
        })
    }
}

/// The statements that survive phase two: everything but the decorator
/// statements, in their original order.
pub open spec fn strip_decorators(ss: Seq<Statement>) -> Seq<Statement>
    decreases ss.len(),
{
    if ss.len() == 0 {
        Seq::empty()
    } else {
        strip_decorators(ss.drop_last()) + (if ss.last() is MacroDecorator {
            Seq::<Statement>::empty()
        } else {
            seq![ss.last()]
        })
    }
}

/// The last macro definition for a name, which is the one the table
/// holds after phase one.
pub open spec fn last_macro_def(ss: Seq<Statement>, name: Seq<char>) -> Option<Function>
    decreases ss.len(),
{
    if ss.len() == 0 {
        None
    } else {
        match ss.last() {
            Statement::MacroDeclare(f) => if f.name.0@ == name {
                Some(f)
            } else {
                last_macro_def(ss.drop_last(), name)
            },
            _ => last_macro_def(ss.drop_last(), name),
        }
    }
}

/// Whether every macro definition in the program compiles.
pub open spec fn macro_defs_compile(ss: Seq<Statement>) -> bool {
    forall|i: int|
        0 <= i < ss.len() ==> match #[trigger] ss[i] {
            Statement::MacroDeclare(f) => compiled_macro_code(f) is Ok,
            _ => true,
        }
}

/// The first macro name referenced by some invocation of the list that
/// the table does not define.
pub open spec fn missing_in(defined: Set<Seq<char>>, ms: Seq<IdentifierOrCall>) -> Option<
    Seq<char>,
>
    decreases ms.len(),
{
    if ms.len() == 0 {
        None
    } else {
        match missing_in(defined, ms.drop_last()) {
            Some(n) => Some(n),
            None => if defined.contains(ms.last().target.0@) {
                None
            } else {
                Some(ms.last().target.0@)
            },
        }
    }
}

/// The first undefined macro name the expansion scan meets, in source
/// order.
pub open spec fn first_missing(defined: Set<Seq<char>>, ss: Seq<Statement>) -> Option<Seq<char>>
    decreases ss.len(),
{
    if ss.len() == 0 {
        None
    } else {
        match first_missing(defined, ss.drop_last()) {
            Some(n) => Some(n),
            None => match ss.last() {
                Statement::MacroDecorator(d) => missing_in(defined, d.macros@),
                _ => None,
            },
        }
    }
}

/// The first macro invocation the expansion scan meets, in source
/// order.
pub open spec fn first_invocation(ss: Seq<Statement>) -> Option<IdentifierOrCall>
    decreases ss.len(),
{
    if ss.len() == 0 {
        None
    } else {
        match first_invocation(ss.drop_last()) {
            Some(q) => Some(q),
            None => match ss.last() {
                Statement::MacroDecorator(d) => if d.macros@.len() > 0 {
                    Some(d.macros@[0])
                } else {
                    None
                },
                _ => None,
            },
        }
    }
}

/// Once a prefix of the scan has met a missing name, the whole scan
/// reports that same name.
pub proof fn lemma_first_missing_prefix(defined: Set<Seq<char>>, ss: Seq<Statement>, i: int)
    requires
        0 <= i <= ss.len(),
        first_missing(defined, ss.take(i)) is Some,
    ensures
        first_missing(defined, ss) == first_missing(defined, ss.take(i)),
    decreases ss.len() - i,
{
    if i < ss.len() {
        assert(ss.take(i + 1).drop_last() =~= ss.take(i));
        lemma_first_missing_prefix(defined, ss, i + 1);
    } else {
        assert(ss.take(i) =~= ss);
    }
}

/// The same, for the invocation list of one decorator.
pub proof fn lemma_missing_in_prefix(defined: Set<Seq<char>>, ms: Seq<IdentifierOrCall>, j: int)
    requires
        0 <= j <= ms.len(),
        missing_in(defined, ms.take(j)) is Some,
    ensures
        missing_in(defined, ms) == missing_in(defined, ms.take(j)),
    decreases ms.len() - j,
{
    if j < ms.len() {
        assert(ms.take(j + 1).drop_last() =~= ms.take(j));
        lemma_missing_in_prefix(defined, ms, j + 1);
    } else {
        assert(ms.take(j) =~= ms);
    }
}

/// Once a prefix of the scan has met an invocation, it is the first
/// one of the whole scan.
pub proof fn lemma_first_invocation_prefix(ss: Seq<Statement>, i: int)
    requires
        0 <= i <= ss.len(),
        first_invocation(ss.take(i)) is Some,
    ensures
        first_invocation(ss) == first_invocation(ss.take(i)),
    decreases ss.len() - i,
{
    if i < ss.len() {
        assert(ss.take(i + 1).drop_last() =~= ss.take(i));
        lemma_first_invocation_prefix(ss, i + 1);
    } else {
        assert(ss.take(i) =~= ss);
    }
}

/// A clean prefix of an invocation list has every one of its names
/// defined.
pub proof fn lemma_missing_in_pointwise(defined: Set<Seq<char>>, ms: Seq<IdentifierOrCall>, k: int)
    requires
        0 <= k < ms.len(),
        missing_in(defined, ms) is None,
    ensures
        defined.contains(ms[k].target.0@),
    decreases ms.len(),
{
    if k + 1 < ms.len() {
        lemma_missing_in_pointwise(defined, ms.drop_last(), k);
    }
}

// ---------------------------------------------------------------------
// Trusted access to the sandboxed interpreter.
// ---------------------------------------------------------------------

#[verifier::external_type_specification]
#[verifier::external_body]
pub struct ExLua(rlua::Lua);

/// Relies on rlua's `Lua::new`: a fresh interpreter instance carrying
/// no state from any other run.
#[verifier::external_body]
fn new_sandbox() -> rlua::Lua {
    rlua::Lua::new()
}

/// Relies on rlua's `Lua::load` and `Chunk::eval`: loads the chunk and
/// runs it in the given interpreter, discarding its value.  What the
/// evaluation does depends on the chunk and on the interpreter's
/// accumulated state, so nothing is promised of the outcome.
#[verifier::external_body]
fn eval_discarding(lua: &rlua::Lua, src: &String) -> Result<(), String> {
    match lua.load(src.as_str()).eval::<()>() {
        Ok(()) => Ok(()),
        Err(e) => Err(format!("{}", e)),
    }
}

// ---------------------------------------------------------------------
// The expansion engine.
// ---------------------------------------------------------------------

/// One macro expansion engine instance: the macro table built by phase
/// one and consulted by phase two.
pub struct MacroExpander {
    pub macros: MacroTable,
}

impl MacroExpander {
    /// A fresh engine with an empty macro table.
    pub fn new() -> (r: MacroExpander)
        ensures
            r.macros@ == Map::<Seq<char>, MacroData>::empty(),
    {
        MacroExpander { macros: MacroTable::new() }
    }

    /// Phase one: compiles every macro definition into the table, in
    /// source order with later definitions overwriting earlier ones,
    /// and strips the definitions from the program.  A definition that
    /// fails to compile aborts the phase.
    #[verifier::loop_isolation(false)]
    #[verifier::rlimit(60)]
    pub fn compile_macros(&mut self, script: Script) -> (r: Result<Script, MacroExpansionError>)
        ensures
            match r {
                Ok(out) => {
                    &&& macro_defs_compile(script.statements@)
                    &&& out.statements@ == strip_macro_declares(script.statements@)
                    &&& forall|name: Seq<char>|
                        match last_macro_def(script.statements@, name) {
                            Some(f) => {
                                &&& #[trigger] final(self).macros@.contains_key(name)
                                &&& final(self).macros@[name].func == f
                                &&& compiled_macro_code(f) == Ok::<Seq<char>, VisitError>(
                                    final(self).macros@[name].runtime_code@,
                                )
                            },
                            None => {
                                &&& final(self).macros@.contains_key(name) == old(self).macros@.contains_key(name)
                                &&& (old(self).macros@.contains_key(name)
                                    ==> final(self).macros@[name] == old(self).macros@[name])
                            },
                        }
                },
                Err(e) => e is InvalidCode && !macro_defs_compile(script.statements@),
            },
    {
        let ghost ss = script.statements@;
        let ghost t0 = self.macros@;
        let mut input = script.statements;
        let n = input.len();
        let mut out: Vec<Statement> = Vec::new();
        let mut i: usize = 0;
        proof {
            assert(input@ =~= ss.skip(0));
            assert(ss.take(0) =~= Seq::<Statement>::empty());
        }
        while i < n
            invariant
                0 <= i <= n,
                n == ss.len(),
                input@ == ss.skip(i as int),
                out@ == strip_macro_declares(ss.take(i as int)),
                macro_defs_compile(ss.take(i as int)),
                forall|name: Seq<char>|
                    match last_macro_def(ss.take(i as int), name) {
                        Some(f) => {
                            &&& #[trigger] self.macros@.contains_key(name)
                            &&& self.macros@[name].func == f
                            &&& compiled_macro_code(f) == Ok::<Seq<char>, VisitError>(
                                self.macros@[name].runtime_code@,
                            )
                        },
                        None => {
                            &&& self.macros@.contains_key(name) == t0.contains_key(name)
                            &&& (t0.contains_key(name) ==> self.macros@[name] == t0[name])
                        },
                    },
            decreases n - i,
        {
            proof {
                assert(ss.skip(i as int)[0] == ss[i as int]);
                let pre = ss.take(i as int + 1);
                assert(pre.drop_last() =~= ss.take(i as int));
                assert(pre.last() == ss[i as int]);
            }
            let stmt = input.remove(0);
            proof {
                assert(input@ =~= ss.skip(i as int + 1));
            }
            match stmt {
                Statement::MacroDeclare(func) => {
                    let name = func.name.0.clone();
                    match MacroData::compiled(func) {
                        Ok(md) => {
                            self.macros.insert(name, md);
                        },
                        Err(e) => {
                            proof {
                                assert(!macro_defs_compile(ss)) by {
                                    assert(ss[i as int] is MacroDeclare);
                                }
                            }
                            return Err(e);
                        },
                    }
                },
                other => {
                    out.push(other);
                    proof {
                        assert(out@ =~= strip_macro_declares(ss.take(i as int + 1)));
                    }
                },
            }
            i = i + 1;
        }
        proof {
            assert(ss.take(n as int) =~= ss);
        }
        Ok(Script { statements: out })
    }

    /// Phase two: runs each decorator's macro invocations, in listed
    /// order, in one sandboxed interpreter instance created for this
    /// call, and drops the decorator statements from the program; every
    /// other statement passes through unchanged, in its original
    /// position.  A reference to an undefined macro fails with that
    /// name; a failing evaluation is caught and reported with its
    /// cause.  The evaluation's value is discarded here: this is the
    /// seam where a spliced replacement could later be captured.
    #[verifier::loop_isolation(false)]
    #[verifier::rlimit(60)]
    pub fn expand_macros(&self, script: Script) -> (r: Result<Script, MacroExpansionError>)
        ensures
            match r {
                Ok(out) => {
                    &&& out.statements@ == strip_decorators(script.statements@)
                    &&& first_missing(self.macros@.dom(), script.statements@) is None
                },
                Err(e) => match e {
                    MacroExpansionError::MacroNotDefined(n) => first_missing(
                        self.macros@.dom(),
                        script.statements@,
                    ) == Some(n@),
                    MacroExpansionError::ExpansionTimeError(_) => match first_invocation(
                        script.statements@,
                    ) {
                        Some(q) => self.macros@.dom().contains(q.target.0@),
                        None => false,
                    },
                    _ => false,
                },
            },
    {
        let ghost ss = script.statements@;
        let ghost defined = self.macros@.dom();
        let lua = new_sandbox();
        let mut input = script.statements;
        let n = input.len();
        let mut out: Vec<Statement> = Vec::new();
        let mut i: usize = 0;
        proof {
            assert(input@ =~= ss.skip(0));
            assert(ss.take(0) =~= Seq::<Statement>::empty());
        }
        while i < n
            invariant
                0 <= i <= n,
                n == ss.len(),
                input@ == ss.skip(i as int),
                out@ == strip_decorators(ss.take(i as int)),
                first_missing(defined, ss.take(i as int)) is None,
                match first_invocation(ss.take(i as int)) {
                    Some(q) => defined.contains(q.target.0@),
                    None => true,
                },
            decreases n - i,
        {
            proof {
                assert(ss.skip(i as int)[0] == ss[i as int]);
                let pre = ss.take(i as int + 1);
                assert(pre.drop_last() =~= ss.take(i as int));
                assert(pre.last() == ss[i as int]);
            }
            let stmt = input.remove(0);
            proof {
                assert(input@ =~= ss.skip(i as int + 1));
            }
            match stmt {
                Statement::MacroDecorator(dec) => {
                    let ghost dm = dec.macros@;
                    let m = dec.macros.len();
                    let mut j: usize = 0;
                    proof {
                        assert(dm.take(0) =~= Seq::<IdentifierOrCall>::empty());
                    }
                    while j < m
                        invariant
                            0 <= j <= m,
                            m == dm.len(),
                            missing_in(defined, dm.take(j as int)) is None,
                        decreases m - j,
                    {
                        proof {
                            let prej = dm.take(j as int + 1);
                            assert(prej.drop_last() =~= dm.take(j as int));
                            assert(prej.last() == dm[j as int]);
                        }
                        let expander = &dec.macros[j];
                        match self.macros.get(&expander.target.0) {
                            Some(found) => {
                                let mut src = found.runtime_code.clone();
                                src.append("\n");
                                src.append(expander.target.0.as_str());
                                src.append("(");
                                let ser = serialize_statement(&dec.target);
                                src.append(ser.as_str());
                                src.append(");");
                                match eval_discarding(&lua, &src) {
                                    Ok(_) => {},
                                    Err(msg) => {
                                        proof {
                                            if first_invocation(ss.take(i as int)) is None {
                                                assert(first_invocation(ss.take(i as int + 1))
                                                    == Some(dm[0]));
                                                if j > 0 {
                                                    lemma_missing_in_pointwise(
                                                        defined,
                                                        dm.take(j as int),
                                                        0,
                                                    );
                                                }
                                            }
                                            lemma_first_invocation_prefix(ss, i as int + 1);
                                        }
                                        return Err(
                                            MacroExpansionError::ExpansionTimeError(Some(msg)),
                                        );
                                    },
                                }
                            },
                            None => {
                                proof {
                                    assert(missing_in(defined, dm.take(j as int + 1)) == Some(
                                        dm[j as int].target.0@,
                                    ));
                                    lemma_missing_in_prefix(defined, dm, j as int + 1);
                                    assert(first_missing(defined, ss.take(i as int + 1)) == Some(
                                        dm[j as int].target.0@,
                                    ));
                                    lemma_first_missing_prefix(defined, ss, i as int + 1);
                                }
                                return Err(
                                    MacroExpansionError::MacroNotDefined(
                                        expander.target.0.clone(),
                                    ),
                                );
                            },
                        }
                        j = j + 1;
                    }
                    proof {
                        assert(dm.take(m as int) =~= dm);
                        if m > 0 {
                            lemma_missing_in_pointwise(defined, dm, 0);
                        }
                        assert(out@ =~= strip_decorators(ss.take(i as int + 1)));
                    }
                },
                other => {
                    out.push(other);
                    proof {
                        assert(out@ =~= strip_decorators(ss.take(i as int + 1)));
                    }
                },
            }
            i = i + 1;
        }
        proof {
            assert(ss.take(n as int) =~= ss);
        }
        Ok(Script { statements: out })
    }
}

} // verus!
