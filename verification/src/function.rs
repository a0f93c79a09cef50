//! The function-plugin contract's compile-time plumbing: parameter
//! declarations, documentation examples, compile errors, and the
//! argument list a call site hands to a builtin's `compile`.

use vstd::prelude::*;
use vstd::string::StringExecFns;
use crate::expression::Expr;
use crate::kind::KindSet;

verus! {

/// Whether two pieces of text hold the same characters.
pub fn str_eq(a: &str, b: &str) -> (r: bool)
    ensures
        r == (a@ == b@),
{
    let left: String = a.to_owned();
    let right: String = b.to_owned();
    left == right
}

/// Static metadata of one declared parameter of a builtin: its keyword,
/// the kinds of values it accepts, and whether a call site must bind it.
#[derive(Clone, Copy, Debug)]
pub struct Parameter {
    pub keyword: &'static str,
    pub kind: KindSet,
    pub required: bool,
}

/// One documentation example of a builtin: a title, a source snippet,
/// and the result its evaluation prints.
#[derive(Clone, Copy, Debug)]
pub struct Example {
    pub title: &'static str,
    pub source: &'static str,
    pub result: Result<&'static str, &'static str>,
}

/// A compile-time error: it aborts compilation of the enclosing program.
#[derive(Debug, PartialEq)]
pub enum CompileError {
    /// A required parameter was not bound at the call site.
    MissingArgument { keyword: &'static str },
    /// An enumerated parameter was bound to something other than a text
    /// literal.
    ExpectedStaticString { keyword: &'static str },
    /// An enumerated parameter was bound to a string outside its closed
    /// set; carries the offending string and the allowed set.
    InvalidEnumVariant { keyword: &'static str, got: String, allowed: Vec<&'static str> },
}

/// The comma-separated join of a sequence of names.
pub open spec fn comma_join(names: Seq<Seq<char>>) -> Seq<char>
    decreases names.len(),
{
    if names.len() == 0 {
        Seq::empty()
    } else if names.len() == 1 {
        names[0]
    } else {
        comma_join(names.drop_last()) + ", "@ + names.last()
    }
}

/// Joins names with commas, as `comma_join` describes.
pub fn join_names(names: &Vec<&'static str>) -> (r: String)
    ensures
        r@ == comma_join(names@.map_values(|s: &'static str| s@)),
{
    let ghost mapped = names@.map_values(|s: &'static str| s@);
    let mut out: String = String::new();
    let mut i: usize = 0;
    while i < names.len()
        invariant
            i <= names.len(),
            mapped == names@.map_values(|s: &'static str| s@),
            out@ == comma_join(mapped.take(i as int)),
        decreases names.len() - i,
    {
        if i > 0 {
            out.append(", ");
        }
        out.append(names[i]);
        proof {
            assert(mapped.take(i + 1).drop_last() =~= mapped.take(i as int));
            assert(mapped.take(i + 1).last() == mapped[i as int]);
        }
        i += 1;
    }
    proof {
        assert(mapped.take(names@.len() as int) =~= mapped);
    }
    out
}

impl CompileError {
    /// A human-readable description naming the offending parameter, and,
    /// for an enum validation failure, the offending string and the
    /// allowed set.
    pub fn message(&self) -> (r: String)
        ensures
            *self matches CompileError::MissingArgument { keyword } ==> r@
                == "missing required argument: "@ + keyword@,
            *self matches CompileError::ExpectedStaticString { keyword } ==> r@
                == "expected a literal string argument: "@ + keyword@,
            *self matches CompileError::InvalidEnumVariant { keyword, got, allowed } ==> r@
                == "invalid enum value for argument: "@ + keyword@ + ", got: "@ + got@
                + ", must be one of: "@ + comma_join(allowed@.map_values(|s: &'static str| s@)),
    {
        match self {
            CompileError::MissingArgument { keyword } => {
                let mut s: String = "missing required argument: ".to_owned();
                s.append(keyword);
                s
            },
            CompileError::ExpectedStaticString { keyword } => {
                let mut s: String = "expected a literal string argument: ".to_owned();
                s.append(keyword);
                s
            },
            CompileError::InvalidEnumVariant { keyword, got, allowed } => {
                let mut s: String = "invalid enum value for argument: ".to_owned();
                s.append(keyword);
                s.append(", got: ");
                s.append(got.as_str());
                s.append(", must be one of: ");
                let joined = join_names(allowed);
                s.append(joined.as_str());
                s
            },
        }
    }
}

/// The first expression bound to a keyword in a sequence of bindings.
pub open spec fn lookup(s: Seq<(Seq<char>, Expr)>, kw: Seq<char>) -> Option<Expr>
    decreases s.len(),
{
    if s.len() == 0 {
        None
    } else if s[0].0 == kw {
        Some(s[0].1)
    } else {
        lookup(s.drop_first(), kw)
    }
}

/// A sequence of bindings without the first binding of a keyword; the
/// same sequence when the keyword is unbound.
pub open spec fn remove_first_binding(s: Seq<(Seq<char>, Expr)>, kw: Seq<char>) -> Seq<
    (Seq<char>, Expr),
>
    decreases s.len(),
{
    if s.len() == 0 {
        s
    } else if s[0].0 == kw {
        s.drop_first()
    } else {
        seq![s[0]] + remove_first_binding(s.drop_first(), kw)
    }
}

/// Removing the binding at the first position holding a keyword is
/// removing the first binding of that keyword.
pub proof fn lemma_remove_first_binding(s: Seq<(Seq<char>, Expr)>, kw: Seq<char>, i: int)
    requires
        0 <= i < s.len(),
        s[i].0 == kw,
        forall|j: int| 0 <= j < i ==> s[j].0 != kw,
    ensures
        s.remove(i) == remove_first_binding(s, kw),
    decreases i,
{
    s.remove_ensures(i);
    if i == 0 {
        assert(s.remove(0) =~= s.drop_first());
    } else {
        lemma_remove_first_binding(s.drop_first(), kw, i - 1);
        s.drop_first().remove_ensures(i - 1);
        assert(s.remove(i) =~= seq![s[0]] + s.drop_first().remove(i - 1));
    }
}

/// Removing the first binding of an unbound keyword changes nothing.
pub proof fn lemma_remove_first_binding_absent(s: Seq<(Seq<char>, Expr)>, kw: Seq<char>)
    requires
        forall|j: int| 0 <= j < s.len() ==> s[j].0 != kw,
    ensures
        remove_first_binding(s, kw) == s,
    decreases s.len(),
{
    if s.len() > 0 {
        lemma_remove_first_binding_absent(s.drop_first(), kw);
        assert(seq![s[0]] + s.drop_first() =~= s);
    }
}

/// When position `i` holds the first binding of a keyword, the lookup of
/// that keyword yields exactly the expression at `i`.
pub proof fn lemma_lookup_first_match(s: Seq<(Seq<char>, Expr)>, kw: Seq<char>, i: int)
    requires
        0 <= i < s.len(),
        s[i].0 == kw,
        forall|j: int| 0 <= j < i ==> s[j].0 != kw,
    ensures
        lookup(s, kw) == Some(s[i].1),
    decreases i,
{
    if i > 0 {
        lemma_lookup_first_match(s.drop_first(), kw, i - 1);
    }
}

/// When no binding of a keyword exists, its lookup yields nothing.
pub proof fn lemma_lookup_absent(s: Seq<(Seq<char>, Expr)>, kw: Seq<char>)
    requires
        forall|j: int| 0 <= j < s.len() ==> s[j].0 != kw,
    ensures
        lookup(s, kw) is None,
    decreases s.len(),
{
    if s.len() > 0 {
        lemma_lookup_absent(s.drop_first(), kw);
    }
}

/// Removing a binding of one keyword leaves the lookup of every other
/// keyword unchanged.
pub proof fn lemma_lookup_remove_other(s: Seq<(Seq<char>, Expr)>, i: int, kw: Seq<char>)
    requires
        0 <= i < s.len(),
        s[i].0 != kw,
    ensures
        lookup(s.remove(i), kw) == lookup(s, kw),
    decreases i,
{
    s.remove_ensures(i);
    if i == 0 {
        assert(s.remove(0) =~= s.drop_first());
    } else {
        lemma_lookup_remove_other(s.drop_first(), i - 1, kw);
        assert(s.remove(i).drop_first() =~= s.drop_first().remove(i - 1));
    }
}

/// The call-site arguments of one builtin call: expressions keyed by
/// parameter keyword, in call-site order. The collection is consumed
/// once during `compile` and then discarded.
#[derive(Debug)]
pub struct ArgumentList {
    args: Vec<(&'static str, Expr)>,
}

impl View for ArgumentList {
    type V = Seq<(Seq<char>, Expr)>;

    closed spec fn view(&self) -> Seq<(Seq<char>, Expr)> {
        self.args@.map_values(|p: (&'static str, Expr)| (p.0@, p.1))
    }
}

impl ArgumentList {
    pub fn new() -> (r: ArgumentList)
        ensures
            r@ == Seq::<(Seq<char>, Expr)>::empty(),
    {
        let r = ArgumentList { args: Vec::new() };
        proof {
            assert(r@ =~= Seq::<(Seq<char>, Expr)>::empty());
        }
        r
    }

    /// Binds an expression to a parameter keyword, after any existing
    /// bindings.
    pub fn push(&mut self, keyword: &'static str, expr: Expr)
        ensures
            final(self)@ == old(self)@.push((keyword@, expr)),
    {
        self.args.push((keyword, expr));
        proof {
            assert(self@ =~= old(self)@.push((keyword@, expr)));
        }
    }

    /// Takes the first expression bound to the keyword out of the list,
    /// if any; the bindings of every other keyword are untouched.
    pub fn take(&mut self, keyword: &str) -> (r: Option<Expr>)
        ensures
            r == lookup(old(self)@, keyword@),
            final(self)@ == remove_first_binding(old(self)@, keyword@),
            forall|kw: Seq<char>| kw != keyword@ ==> lookup(final(self)@, kw) == lookup(
                old(self)@,
                kw,
            ),
    {
        let n: usize = self.args.len();
        let mut i: usize = 0;
        while i < n
            invariant
                n == self.args.len(),
                i <= n,
                *self == *old(self),
                forall|j: int| 0 <= j < i ==> old(self)@[j].0 != keyword@,
            decreases n - i,
        {
            if str_eq(self.args[i].0, keyword) {
                let pair = self.args.remove(i);
                proof {
                    let s = old(self)@;
                    old(self).args@.remove_ensures(i as int);
                    s.remove_ensures(i as int);
                    assert(self@ =~= s.remove(i as int));
                    lemma_lookup_first_match(s, keyword@, i as int);
                    lemma_remove_first_binding(s, keyword@, i as int);
                    assert forall|kw: Seq<char>| kw != keyword@ implies lookup(self@, kw)
                        == lookup(s, kw) by {
                        lemma_lookup_remove_other(s, i as int, kw);
                    }
                }
                return Some(pair.1);
            }
            i += 1;
        }
        proof {
            lemma_lookup_absent(old(self)@, keyword@);
            lemma_remove_first_binding_absent(old(self)@, keyword@);
        }
        None
    }
}

} // verus!
