//! The closed set of scope kinds and the table that names them.
use vstd::prelude::*;
use std::collections::HashMap;
use crate::error::RecordError;
use crate::text::text_eq;

verus! {

/// The semantic kind of a triplet. The kinds are ordered as they are
/// listed.
#[derive(Clone, Copy, Debug, PartialEq, Eq, Structural, PartialOrd, Ord, Hash)]
pub enum ScopeCode {
    /// The sentinel of a scope not yet resolved. No sealed record carries
    /// it.
    Unset,
    /// A base fact.
    Fact,
    /// A rule that derives facts.
    Rule,
    /// A definition.
    Definition,
    /// A procedure. Its record carries a tail.
    Procedure,
    /// A program. Its record carries a tail.
    Program,
    /// A macro.
    Macro,
    /// A template.
    Template,
    /// An expression.
    Expression,
}

/// How many scope codes there are, the sentinel included.
pub const SCOPE_COUNT: usize = 9;

/// The code that stands for `code` on the wire.
pub open spec fn scope_number(code: ScopeCode) -> u8 {
    match code {
        ScopeCode::Unset => 0,
        ScopeCode::Fact => 1,
        ScopeCode::Rule => 2,
        ScopeCode::Definition => 3,
        ScopeCode::Procedure => 4,
        ScopeCode::Program => 5,
        ScopeCode::Macro => 6,
        ScopeCode::Template => 7,
        ScopeCode::Expression => 8,
    }
}

/// The code that `n` stands for, if there is one.
pub open spec fn scope_with_number(n: u8) -> Option<ScopeCode> {
    if n == 0 {
        Some(ScopeCode::Unset)
    } else if n == 1 {
        Some(ScopeCode::Fact)
    } else if n == 2 {
        Some(ScopeCode::Rule)
    } else if n == 3 {
        Some(ScopeCode::Definition)
    } else if n == 4 {
        Some(ScopeCode::Procedure)
    } else if n == 5 {
        Some(ScopeCode::Program)
    } else if n == 6 {
        Some(ScopeCode::Macro)
    } else if n == 7 {
        Some(ScopeCode::Template)
    } else if n == 8 {
        Some(ScopeCode::Expression)
    } else {
        None
    }
}

/// A code's number stands for that code, and a number stands for a code
/// only if it is that code's number.
pub proof fn scope_number_round_trip(code: ScopeCode, n: u8)
    ensures
        scope_with_number(scope_number(code)) == Some(code),
        scope_with_number(n) matches Some(c) ==> scope_number(c) == n,
{
}

/// The human-readable name of `code`.
pub open spec fn scope_name(code: ScopeCode) -> Seq<char> {
    match code {
        ScopeCode::Unset => "None"@,
        ScopeCode::Fact => "fact"@,
        ScopeCode::Rule => "rule"@,
        ScopeCode::Definition => "definition"@,
        ScopeCode::Procedure => "procedure"@,
        ScopeCode::Program => "program"@,
        ScopeCode::Macro => "macro"@,
        ScopeCode::Template => "template"@,
        ScopeCode::Expression => "expression"@,
    }
}

/// Whether a record of this scope carries a tail.
pub open spec fn scope_requires_tail(code: ScopeCode) -> bool {
    code == ScopeCode::Procedure || code == ScopeCode::Program
}

/// No two scope codes share a number.
pub proof fn scope_numbers_are_distinct(a: ScopeCode, b: ScopeCode)
    requires
        scope_number(a) == scope_number(b),
    ensures
        a == b,
{
}

/// No two scope codes share a name.
pub proof fn scope_names_are_distinct(a: ScopeCode, b: ScopeCode)
    requires
        scope_name(a) == scope_name(b),
    ensures
        a == b,
{
    reveal_strlit("None");
    reveal_strlit("fact");
    reveal_strlit("rule");
    reveal_strlit("definition");
    reveal_strlit("procedure");
    reveal_strlit("program");
    reveal_strlit("macro");
    reveal_strlit("template");
    reveal_strlit("expression");
    assert("None"@.len() == 4 && "None"@[0] == 'N');
    assert("fact"@.len() == 4 && "fact"@[0] == 'f');
    assert("rule"@.len() == 4 && "rule"@[0] == 'r');
    assert("definition"@.len() == 10 && "definition"@[0] == 'd');
    assert("procedure"@.len() == 9);
    assert("program"@.len() == 7);
    assert("macro"@.len() == 5);
    assert("template"@.len() == 8);
    assert("expression"@.len() == 10 && "expression"@[0] == 'e');
}

impl ScopeCode {
    /// The number that stands for this code on the wire.
    pub fn code(self) -> (n: u8)
        ensures
            n == scope_number(self),
    {
        match self {
            ScopeCode::Unset => 0,
            ScopeCode::Fact => 1,
            ScopeCode::Rule => 2,
            ScopeCode::Definition => 3,
            ScopeCode::Procedure => 4,
            ScopeCode::Program => 5,
            ScopeCode::Macro => 6,
            ScopeCode::Template => 7,
            ScopeCode::Expression => 8,
        }
    }

    /// The scope code that `n` stands for. Fails with `UnknownScope` exactly
    /// when no code has that number.
    pub fn from_code(n: u8) -> (r: Result<ScopeCode, RecordError>)
        ensures
            match r {
                Ok(code) => scope_with_number(n) == Some(code) && scope_number(code) == n,
                Err(e) => e == RecordError::UnknownScope && scope_with_number(n) is None
                    && forall|c: ScopeCode| scope_number(c) != n,
            },
    {
        match n {
            0 => Ok(ScopeCode::Unset),
            1 => Ok(ScopeCode::Fact),
            2 => Ok(ScopeCode::Rule),
            3 => Ok(ScopeCode::Definition),
            4 => Ok(ScopeCode::Procedure),
            5 => Ok(ScopeCode::Program),
            6 => Ok(ScopeCode::Macro),
            7 => Ok(ScopeCode::Template),
            8 => Ok(ScopeCode::Expression),
            _ => Err(RecordError::UnknownScope),
        }
    }

    /// The human-readable name of this code.
    pub fn name(self) -> (name: &'static str)
        ensures
            name@ == scope_name(self),
    {
        match self {
            ScopeCode::Unset => "None",
            ScopeCode::Fact => "fact",
            ScopeCode::Rule => "rule",
            ScopeCode::Definition => "definition",
            ScopeCode::Procedure => "procedure",
            ScopeCode::Program => "program",
            ScopeCode::Macro => "macro",
            ScopeCode::Template => "template",
            ScopeCode::Expression => "expression",
        }
    }

    /// Whether a record of this scope carries a tail: true for procedures
    /// and programs only.
    pub fn requires_tail(self) -> (b: bool)
        ensures
            b == scope_requires_tail(self),
    {
        match self {
            ScopeCode::Procedure => true,
            ScopeCode::Program => true,
            _ => false,
        }
    }
}

/// The rows of the complete scope table: every code with its name, in the
/// order of the codes' numbers.
pub open spec fn scope_table() -> Seq<(ScopeCode, Seq<char>)> {
    Seq::new(
        SCOPE_COUNT as nat,
        |i: int|
            {
                let code = scope_with_number(i as u8)->0;
                (code, scope_name(code))
            },
    )
}

/// The table of scope codes and their names: a map from each code's number
/// to the code's name. It is built once, holds every code exactly once, and
/// is read-only afterwards.
pub struct ScopeRegistry {
    names: HashMap<u8, &'static str>,
}

impl View for ScopeRegistry {
    type V = Seq<(ScopeCode, Seq<char>)>;

    closed spec fn view(&self) -> Seq<(ScopeCode, Seq<char>)> {
        Seq::new(
            SCOPE_COUNT as nat,
            |i: int| (scope_with_number(i as u8)->0, self.names@[i as u8]@),
        )
    }
}

impl Default for ScopeRegistry {
    /// The table with all nine codes.
    fn default() -> (registry: Self)
        ensures
            registry@ == scope_table(),
    {
        ScopeRegistry::new()
    }
}

impl ScopeRegistry {
    /// The map holds exactly the numbers of the codes, each with its
    /// code's name.
    #[verifier::type_invariant]
    spec fn is_complete(&self) -> bool {
        forall|n: u8|
            match scope_with_number(n) {
                Some(code) => #[trigger] self.names@.contains_key(n) && self.names@[n]@
                    == scope_name(code),
                None => !self.names@.contains_key(n),
            }
    }

    /// The table with all nine codes.
    pub fn new() -> (registry: Self)
        ensures
            registry@ == scope_table(),
    {
        broadcast use vstd::std_specs::hash::group_hash_axioms;

        let mut names: HashMap<u8, &'static str> = HashMap::new();
        names.insert(ScopeCode::Unset.code(), ScopeCode::Unset.name());
        names.insert(ScopeCode::Fact.code(), ScopeCode::Fact.name());
        names.insert(ScopeCode::Rule.code(), ScopeCode::Rule.name());
        names.insert(ScopeCode::Definition.code(), ScopeCode::Definition.name());
        names.insert(ScopeCode::Procedure.code(), ScopeCode::Procedure.name());
        names.insert(ScopeCode::Program.code(), ScopeCode::Program.name());
        names.insert(ScopeCode::Macro.code(), ScopeCode::Macro.name());
        names.insert(ScopeCode::Template.code(), ScopeCode::Template.name());
        names.insert(ScopeCode::Expression.code(), ScopeCode::Expression.name());
        let registry = ScopeRegistry { names };
        assert(registry@ =~= scope_table());
        registry
    }

    /// The name registered for `code`.
    pub fn resolve(&self, code: ScopeCode) -> (name: &'static str)
        ensures
            name@ == scope_name(code),
    {
        broadcast use vstd::std_specs::hash::group_hash_axioms;

        proof {
            use_type_invariant(self);
            scope_number_round_trip(code, 0);
        }
        let n: u8 = code.code();
        assert(self.names@.contains_key(n));
        match self.names.get(&n) {
            Some(name) => *name,
            None => code.name(),
        }
    }

    /// The code registered under `name`. Fails with `UnknownScope` exactly
    /// when no code has that name.
    pub fn parse(&self, name: &str) -> (r: Result<ScopeCode, RecordError>)
        ensures
            match r {
                Ok(code) => scope_name(code) == name@ && forall|c: ScopeCode|
                    scope_name(c) == name@ ==> c == code,
                Err(e) => e == RecordError::UnknownScope && forall|c: ScopeCode|
                    scope_name(c) != name@,
            },
    {
        broadcast use vstd::std_specs::hash::group_hash_axioms;

        proof {
            use_type_invariant(self);
        }
        let mut n: u8 = 0;
        while n < 9
            invariant
                0 <= n <= 9,
                self.is_complete(),
                forall|j: u8| j < n ==> #[trigger] self.names@[j]@ != name@,
            decreases 9 - n,
        {
            assert(self.names@.contains_key(n));
            match self.names.get(&n) {
                Some(entry) => {
                    if text_eq(*entry, name) {
                        match ScopeCode::from_code(n) {
                            Ok(code) => {
                                proof {
                                    assert forall|c: ScopeCode| scope_name(c) == name@ implies c
                                        == code by {
                                        scope_names_are_distinct(c, code);
                                    }
                                }
                                return Ok(code);
                            },
                            Err(_) => {},
                        }
                    }
                },
                None => {},
            }
            n += 1;
        }
        proof {
            assert forall|c: ScopeCode| scope_name(c) != name@ by {
                scope_number_round_trip(c, 0);
                assert(self.names@.contains_key(scope_number(c)));
            }
        }
        Err(RecordError::UnknownScope)
    }

    /// The code registered under the number `n`. Fails with `UnknownScope`
    /// exactly when no code has that number.
    pub fn lookup(&self, n: u8) -> (r: Result<ScopeCode, RecordError>)
        ensures
            match r {
                Ok(code) => scope_number(code) == n,
                Err(e) => e == RecordError::UnknownScope && forall|c: ScopeCode|
                    scope_number(c) != n,
            },
    {
        broadcast use vstd::std_specs::hash::group_hash_axioms;

        proof {
            use_type_invariant(self);
            assert forall|c: ScopeCode| scope_number(c) == n implies scope_with_number(n)
                is Some by {
                scope_number_round_trip(c, 0);
            }
        }
        match self.names.get(&n) {
            Some(_) => ScopeCode::from_code(n),
            None => Err(RecordError::UnknownScope),
        }
    }
}

} // verus!
