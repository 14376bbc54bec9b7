//! Probes and the symbols they target.

use vstd::prelude::*;
use vstd::string::StrSliceExecFns;

verus! {

/// The kernel attachment technique a probe uses.
#[derive(Clone, Copy, Debug, PartialEq, Eq, Structural)]
pub enum ProbeKind {
    Kprobe,
    Tracepoint,
    RawTracepoint,
}

/// What a symbol names in the kernel.
#[derive(Clone, Copy, Debug, PartialEq, Eq, Structural)]
pub enum SymbolKind {
    /// A function, named by its identifier alone.
    Func,
    /// A trace event, named as `group:event`.
    Event,
}

/// Why a symbol or a probe could not be built.
#[derive(Clone, Copy, Debug, PartialEq, Eq, Structural)]
pub enum ProbeError {
    /// The running kernel does not have the target.
    UnknownSymbol,
    /// A kprobe was asked for on something that is not a function.
    NotAFunction,
    /// A tracepoint was asked for on something that is not a trace event.
    NotAnEvent,
}

/// `i` is the position of the first `:` of `s`.
pub open spec fn splits_at(s: Seq<char>, i: int) -> bool {
    &&& 0 <= i < s.len()
    &&& s[i] == ':'
    &&& forall|j: int| 0 <= j < i ==> s[j] != ':'
}

/// No character of `s` is a `:`.
pub open spec fn no_colon(s: Seq<char>) -> bool {
    forall|j: int| 0 <= j < s.len() ==> s[j] != ':'
}

/// The kind of symbol that a name denotes: an event if it holds a `:`,
/// a function otherwise.
pub open spec fn kind_of_name(s: Seq<char>) -> SymbolKind {
    if no_colon(s) {
        SymbolKind::Func
    } else {
        SymbolKind::Event
    }
}

/// The name under which the kernel attaches to a target: a function's own
/// name, an event's name without its group.
pub open spec fn attach_name_of(s: Seq<char>) -> Seq<char> {
    if no_colon(s) {
        s
    } else {
        let i = choose|i: int| splits_at(s, i);
        s.subrange(i + 1, s.len() as int)
    }
}

/// The group of an event's name: what stands before its first `:`. Empty for
/// a function.
pub open spec fn group_of(s: Seq<char>) -> Seq<char> {
    if no_colon(s) {
        Seq::<char>::empty()
    } else {
        let i = choose|i: int| splits_at(s, i);
        s.subrange(0, i)
    }
}

/// The first `:` of a name is unique.
pub proof fn lemma_split_unique(s: Seq<char>, i: int, j: int)
    requires
        splits_at(s, i),
        splits_at(s, j),
    ensures
        i == j,
{
    if i < j {
        assert(s[i] != ':');
    } else if j < i {
        assert(s[j] != ':');
    }
}

/// Finds the first `:` of a name.
pub fn find_colon(name: &str) -> (r: Option<usize>)
    ensures
        match r {
            Some(i) => splits_at(name@, i as int),
            None => no_colon(name@),
        },
{
    let n: usize = name.unicode_len();
    let mut i: usize = 0;
    while i < n
        invariant
            n == name@.len(),
            i <= n,
            forall|j: int| 0 <= j < i ==> name@[j] != ':',
        decreases n - i,
    {
        if name.get_char(i) == ':' {
            return Some(i);
        }
        i += 1;
    }
    None
}

/// A target in the running kernel.
#[derive(Debug)]
pub struct Symbol {
    name: String,
    split: Option<usize>,
}

impl View for Symbol {
    type V = Seq<char>;

    /// A symbol is its full name.
    closed spec fn view(&self) -> Seq<char> {
        self.name@
    }
}

impl Clone for Symbol {
    /// A copy names the same target.
    fn clone(&self) -> (r: Symbol)
        ensures
            r@ == self@,
    {
        proof {
            use_type_invariant(self);
        }
        Symbol { name: self.name.clone(), split: self.split }
    }
}

impl Symbol {
    /// The split position recorded in the symbol is the first `:` of its name.
    #[verifier::type_invariant]
    closed spec fn wf(&self) -> bool {
        match self.split {
            Some(i) => splits_at(self.name@, i as int),
            None => no_colon(self.name@),
        }
    }

    /// Builds the symbol of a name, given whether the running kernel knows it.
    pub fn from_name(name: &str, known: bool) -> (r: Result<Symbol, ProbeError>)
        ensures
            known ==> r is Ok && r->Ok_0@ == name@,
            !known ==> r == Err::<Symbol, ProbeError>(ProbeError::UnknownSymbol),
    {
        if !known {
            return Err(ProbeError::UnknownSymbol);
        }
        let split = find_colon(name);
        Ok(Symbol { name: name.to_owned(), split })
    }

    /// Whether the symbol is a function or a trace event.
    pub fn kind(&self) -> (k: SymbolKind)
        ensures
            k == kind_of_name(self@),
    {
        proof {
            use_type_invariant(self);
        }
        match self.split {
            Some(i) => {
                assert(self@[i as int] == ':');
                SymbolKind::Event
            },
            None => SymbolKind::Func,
        }
    }

    /// The symbol's full name.
    pub fn name(&self) -> (s: String)
        ensures
            s@ == self@,
    {
        self.name.clone()
    }

    /// The name to hand to the kernel when attaching to this symbol.
    pub fn attach_name(&self) -> (s: String)
        ensures
            s@ == attach_name_of(self@),
    {
        proof {
            use_type_invariant(self);
        }
        match self.split {
            Some(i) => {
                proof {
                    assert(self@[i as int] == ':');
                    let c = choose|c: int| splits_at(self@, c);
                    lemma_split_unique(self@, i as int, c);
                }
                let n: usize = self.name.as_str().unicode_len();
                self.name.as_str().substring_char(i + 1, n).to_owned()
            },
            None => self.name.clone(),
        }
    }

    /// The group of a trace event; empty for a function.
    pub fn group(&self) -> (s: String)
        ensures
            s@ == group_of(self@),
    {
        proof {
            use_type_invariant(self);
        }
        match self.split {
            Some(i) => {
                proof {
                    assert(self@[i as int] == ':');
                    let c = choose|c: int| splits_at(self@, c);
                    lemma_split_unique(self@, i as int, c);
                }
                self.name.as_str().substring_char(0, i).to_owned()
            },
            None => String::new(),
        }
    }
}

/// What a probe is, as a mathematical value.
pub struct ProbeView {
    pub kind: ProbeKind,
    pub target: Seq<char>,
}

/// One concrete attachment target of a given mechanism.
#[derive(Debug)]
pub struct Probe {
    kind: ProbeKind,
    symbol: Symbol,
}

/// Which symbols a mechanism can attach to: kprobes to functions, both
/// tracepoint mechanisms to trace events.
pub open spec fn accepts(kind: ProbeKind, symbol: SymbolKind) -> bool {
    match kind {
        ProbeKind::Kprobe => symbol == SymbolKind::Func,
        ProbeKind::Tracepoint => symbol == SymbolKind::Event,
        ProbeKind::RawTracepoint => symbol == SymbolKind::Event,
    }
}

impl View for Probe {
    type V = ProbeView;

    closed spec fn view(&self) -> ProbeView {
        ProbeView { kind: self.kind, target: self.symbol@ }
    }
}

/// What building a probe of a mechanism on a target gives: the probe, where
/// the mechanism attaches to targets of that kind; else the error that names
/// the kind of target the mechanism wants.
pub open spec fn probe_of(kind: ProbeKind, target: Seq<char>) -> Result<ProbeView, ProbeError> {
    if accepts(kind, kind_of_name(target)) {
        Ok(ProbeView { kind, target })
    } else {
        match kind {
            ProbeKind::Kprobe => Err(ProbeError::NotAFunction),
            ProbeKind::Tracepoint => Err(ProbeError::NotAnEvent),
            ProbeKind::RawTracepoint => Err(ProbeError::NotAnEvent),
        }
    }
}

/// What a constructor's answer is, as a mathematical value.
pub open spec fn built(r: Result<Probe, ProbeError>) -> Result<ProbeView, ProbeError> {
    match r {
        Ok(p) => Ok(p@),
        Err(e) => Err(e),
    }
}

impl Clone for Probe {
    /// A copy is the same probe.
    fn clone(&self) -> (r: Probe)
        ensures
            r@ == self@,
    {
        proof {
            use_type_invariant(self);
        }
        Probe { kind: self.kind, symbol: self.symbol.clone() }
    }
}

impl Probe {
    /// A probe's target is of the kind its mechanism attaches to.
    #[verifier::type_invariant]
    closed spec fn wf(&self) -> bool {
        accepts(self.kind, kind_of_name(self.symbol@))
    }

    /// A kprobe on a function; refused on a trace event.
    pub fn kprobe(symbol: Symbol) -> (r: Result<Probe, ProbeError>)
        ensures
            built(r) == probe_of(ProbeKind::Kprobe, symbol@),
    {
        match symbol.kind() {
            SymbolKind::Func => Ok(Probe { kind: ProbeKind::Kprobe, symbol }),
            SymbolKind::Event => Err(ProbeError::NotAFunction),
        }
    }

    /// A tracepoint on a trace event; refused on a function.
    pub fn tracepoint(symbol: Symbol) -> (r: Result<Probe, ProbeError>)
        ensures
            built(r) == probe_of(ProbeKind::Tracepoint, symbol@),
    {
        match symbol.kind() {
            SymbolKind::Event => Ok(Probe { kind: ProbeKind::Tracepoint, symbol }),
            SymbolKind::Func => Err(ProbeError::NotAnEvent),
        }
    }

    /// A raw tracepoint on a trace event; refused on a function.
    pub fn raw_tracepoint(symbol: Symbol) -> (r: Result<Probe, ProbeError>)
        ensures
            built(r) == probe_of(ProbeKind::RawTracepoint, symbol@),
    {
        match symbol.kind() {
            SymbolKind::Event => Ok(Probe { kind: ProbeKind::RawTracepoint, symbol }),
            SymbolKind::Func => Err(ProbeError::NotAnEvent),
        }
    }

    /// The mechanism this probe attaches with. It is one that attaches to
    /// targets of the kind of this probe's target.
    pub fn kind(&self) -> (k: ProbeKind)
        ensures
            k == self@.kind,
            accepts(k, kind_of_name(self@.target)),
    {
        proof {
            use_type_invariant(self);
        }
        self.kind
    }

    /// The symbol this probe targets.
    pub fn symbol(&self) -> (s: &Symbol)
        ensures
            s@ == self@.target,
    {
        &self.symbol
    }

    /// The name to hand to the kernel when attaching this probe.
    pub fn attach_name(&self) -> (s: String)
        ensures
            s@ == attach_name_of(self@.target),
    {
        self.symbol.attach_name()
    }
}

} // verus!
