//! The text accumulator used by code generation.
//!
//! A `Builder` owns the text emitted so far together with the current
//! indentation depth.  Its mathematical model is a [`BuilderModel`]:
//! the accumulated character sequence, the depth, and the indentation
//! unit the builder was configured with.

use vstd::prelude::*;
use vstd::string::StringExecFns;
use vstd::string::StrSliceExecFns;

verus! {

/// The indentation prefix for a given depth: the unit repeated `depth` times.
pub open spec fn indent_text(ind: Seq<char>, depth: nat) -> Seq<char>
    decreases depth,
{
    if depth == 0 {
        Seq::empty()
    } else {
        indent_text(ind, (depth - 1) as nat) + ind
    }
}

/// The model of a [`Builder`]: what it will print, how deep it is nested,
/// and the indentation unit it repeats on every new line.
pub struct BuilderModel {
    pub text: Seq<char>,
    pub depth: nat,
    pub ind: Seq<char>,
}

impl BuilderModel {
    /// Text appended to the current line.
    pub open spec fn put(self, s: Seq<char>) -> BuilderModel {
        BuilderModel { text: self.text + s, depth: self.depth, ind: self.ind }
    }

    /// A newline followed by the indentation prefix of the current depth.
    pub open spec fn line(self) -> BuilderModel {
        BuilderModel {
            text: self.text + seq!['\n'] + indent_text(self.ind, self.depth),
            depth: self.depth,
            ind: self.ind,
        }
    }

    /// One more level of nesting.
    pub open spec fn push(self) -> BuilderModel {
        BuilderModel { text: self.text, depth: self.depth + 1, ind: self.ind }
    }

    /// One less level of nesting; only meaningful when `depth > 0`.
    pub open spec fn pop(self) -> BuilderModel {
        BuilderModel { text: self.text, depth: (self.depth - 1) as nat, ind: self.ind }
    }

    /// An empty sibling accumulator sharing this one's configuration.
    pub open spec fn sibling(self) -> BuilderModel {
        BuilderModel { text: Seq::empty(), depth: 0, ind: self.ind }
    }
}

/// The text accumulator.  It is threaded by value through every visit
/// call; sub-renders use an independent empty sibling (`clone_like`)
/// instead of mutating shared state.
pub struct Builder {
    text: String,
    prefix: String,
    ind: String,
    depth: Ghost<nat>,
}

impl View for Builder {
    type V = BuilderModel;

    closed spec fn view(&self) -> BuilderModel {
        BuilderModel { text: self.text@, depth: self.depth@, ind: self.ind@ }
    }
}

impl Builder {
    /// The cached indentation prefix matches the depth.
    pub closed spec fn wf(&self) -> bool {
        self.prefix@ == indent_text(self.ind@, self.depth@)
    }

    /// A fresh accumulator configured with the given indentation unit.
    pub fn new(ind: String) -> (r: Builder)
        ensures
            r.wf(),
            r@ == (BuilderModel { text: Seq::<char>::empty(), depth: 0, ind: ind@ }),
    {
        Builder { text: String::new(), prefix: String::new(), ind, depth: Ghost(0) }
    }

    /// Appends text to the current line.
    pub fn put(self, s: &str) -> (r: Builder)
        requires
            self.wf(),
        ensures
            r.wf(),
            r@ == self@.put(s@),
    {
        let mut me = self;
        me.text.append(s);
        me
    }

    /// Appends text held in an owned string to the current line.
    pub fn put_string(self, s: &String) -> (r: Builder)
        requires
            self.wf(),
        ensures
            r.wf(),
            r@ == self@.put(s@),
    {
        let mut me = self;
        me.text.append(s.as_str());
        me
    }

    /// Starts a new line at the current indentation depth.
    pub fn line(self) -> (r: Builder)
        requires
            self.wf(),
        ensures
            r.wf(),
            r@ == self@.line(),
    {
        let mut me = self;
        me.text.append("\n");
        let prefix = me.prefix.clone();
        me.text.append(prefix.as_str());
        proof {
            reveal_strlit("\n");
            assert(me@.text =~= self@.line().text);
        }
        me
    }

    /// Enters one level of nesting.
    pub fn push(self) -> (r: Builder)
        requires
            self.wf(),
        ensures
            r.wf(),
            r@ == self@.push(),
    {
        let mut me = self;
        let unit = me.ind.clone();
        me.prefix.append(unit.as_str());
        proof {
            me.depth@ = me.depth@ + 1;
        }
        me
    }

    /// Leaves one level of nesting.  Code generation keeps pushes and
    /// pops balanced, so popping at depth zero is ruled out up front.
    pub fn pop(self) -> (r: Builder)
        requires
            self.wf(),
            self@.depth > 0,
        ensures
            r.wf(),
            r@ == self@.pop(),
    {
        let mut me = self;
        let plen = me.prefix.as_str().unicode_len();
        let ilen = me.ind.as_str().unicode_len();
        proof {
            assert(indent_text(me.ind@, me.depth@) == indent_text(
                me.ind@,
                (me.depth@ - 1) as nat,
            ) + me.ind@);
            assert(plen >= ilen);
        }
        let shorter = me.prefix.as_str().substring_char(0, plen - ilen);
        me.prefix = shorter.to_owned();
        proof {
            me.depth@ = (me.depth@ - 1) as nat;
            assert(me.prefix@ =~= indent_text(me.ind@, me.depth@));
        }
        me
    }

    /// An empty sibling accumulator sharing this one's configuration,
    /// for pre-rendering a sub-tree into a standalone string.
    pub fn clone_like(&self) -> (r: Builder)
        ensures
            r.wf(),
            r@ == self@.sibling(),
    {
        Builder {
            text: String::new(),
            prefix: String::new(),
            ind: self.ind.clone(),
            depth: Ghost(0),
        }
    }

    /// Finalizes the accumulator into the emitted text.
    pub fn collect(self) -> (r: String)
        ensures
            r@ == self@.text,
    {
        self.text
    }
}

} // verus!
