use vstd::prelude::*;

use crate::decl::name_views;
use crate::table::TransitionTable;
use crate::table::entry_is_rotate;
use crate::table::entry_is_shift;
use crate::table::rotate_pred;
use crate::table::rotate_succ;
use crate::table::shift_pred;
use crate::table::shift_succ;

verus! {

/// One match arm line of generated source, at the indentation of a match
/// body nested inside a method inside an impl block.
pub open spec fn match_arm_text(lhs: Seq<char>, rhs: Seq<char>) -> Seq<char> {
    "            "@ + lhs + " => "@ + rhs + ",\n"@
}

/// The first `k` arm lines, pairing `lhs[i]` with `rhs[i]` in order.
pub open spec fn arms_text_upto(lhs: Seq<Seq<char>>, rhs: Seq<Seq<char>>, k: int) -> Seq<char>
    decreases k,
{
    if k <= 0 {
        Seq::empty()
    } else {
        arms_text_upto(lhs, rhs, k - 1) + match_arm_text(lhs[k - 1], rhs[k - 1])
    }
}

/// All arm lines, pairing the two pattern lists positionally.
pub open spec fn arms_text(lhs: Seq<Seq<char>>, rhs: Seq<Seq<char>>) -> Seq<char> {
    arms_text_upto(lhs, rhs, lhs.len() as int)
}

/// The pattern `Self::V` for a variant identifier `V`.
pub open spec fn self_path(v: Seq<char>) -> Seq<char> {
    "Self::"@ + v
}

/// The pattern `Name::V` for a type `Name` and a variant identifier `V`.
pub open spec fn type_path(name: Seq<char>, v: Seq<char>) -> Seq<char> {
    name + "::"@ + v
}

/// The pattern `Some(p)` around an already rendered pattern `p`.
pub open spec fn some_of(p: Seq<char>) -> Seq<char> {
    "Some("@ + p + ")"@
}

/// `Self::V` for every variant, in declaration order: the left-hand sides
/// of the match arms the rotate and shift generators emit.
pub open spec fn self_paths(vs: Seq<Seq<char>>) -> Seq<Seq<char>> {
    vs.map_values(|v: Seq<char>| self_path(v))
}

/// Right-hand sides of the rotate generator's `next` arms: each variant's
/// cyclic successor.
pub open spec fn rotate_next_rhs(vs: Seq<Seq<char>>) -> Seq<Seq<char>> {
    Seq::new(vs.len(), |i: int| self_path(vs[rotate_succ(i, vs.len() as int)]))
}

/// Right-hand sides of the rotate generator's `prev` arms: each variant's
/// cyclic predecessor.
pub open spec fn rotate_prev_rhs(vs: Seq<Seq<char>>) -> Seq<Seq<char>> {
    Seq::new(vs.len(), |i: int| self_path(vs[rotate_pred(i, vs.len() as int)]))
}

/// Right-hand sides of the shift generator's `next` arms: the bounded
/// successor, or `None` at the end of the declaration.
pub open spec fn shift_next_rhs(vs: Seq<Seq<char>>) -> Seq<Seq<char>> {
    Seq::new(
        vs.len(),
        |i: int|
            match shift_succ(i, vs.len() as int) {
                Some(j) => some_of(self_path(vs[j])),
                None => "None"@,
            },
    )
}

/// Right-hand sides of the shift generator's `prev` arms: the bounded
/// predecessor, or `None` at the start of the declaration.
pub open spec fn shift_prev_rhs(vs: Seq<Seq<char>>) -> Seq<Seq<char>> {
    Seq::new(
        vs.len(),
        |i: int|
            match shift_pred(i, vs.len() as int) {
                Some(j) => some_of(self_path(vs[j])),
                None => "None"@,
            },
    )
}

/// The name of the cursor type the iteration generator declares: the
/// annotated type's identifier with a fixed suffix.
pub open spec fn cursor_type_name(name: Seq<char>) -> Seq<char> {
    name + "Iterator"@
}

/// Left-hand sides of the cursor's transition arms: `Some(Name::V)` for
/// every variant, in declaration order.
pub open spec fn iter_lhs(name: Seq<char>, vs: Seq<Seq<char>>) -> Seq<Seq<char>> {
    vs.map_values(|v: Seq<char>| some_of(type_path(name, v)))
}

/// Right-hand sides of the cursor's transition arms: the held variant's
/// bounded successor, or `None` past the last variant.
pub open spec fn iter_rhs(name: Seq<char>, vs: Seq<Seq<char>>) -> Seq<Seq<char>> {
    Seq::new(
        vs.len(),
        |i: int|
            match shift_succ(i, vs.len() as int) {
                Some(j) => some_of(type_path(name, vs[j])),
                None => "None"@,
            },
    )
}

/// The whole emitted unit of the rotate generator: an impl block with two
/// total methods, `next` and `prev`, each an exhaustive match sending every
/// variant to its cyclic successor or predecessor.
pub open spec fn rotate_impl_text(name: Seq<char>, vs: Seq<Seq<char>>) -> Seq<char> {
    "impl "@ + name + " {\n"@ + "    pub fn next(self) -> Self {\n"@ + "        match self {\n"@
        + arms_text(self_paths(vs), rotate_next_rhs(vs)) + "        }\n"@ + "    }\n"@
        + "    pub fn prev(self) -> Self {\n"@ + "        match self {\n"@ + arms_text(
        self_paths(vs),
        rotate_prev_rhs(vs),
    ) + "        }\n"@ + "    }\n"@ + "}\n"@
}

/// The whole emitted unit of the shift generator: an impl block with two
/// methods returning an optional value, with explicit `None` arms at the
/// two boundaries.
pub open spec fn shift_impl_text(name: Seq<char>, vs: Seq<Seq<char>>) -> Seq<char> {
    "impl "@ + name + " {\n"@ + "    pub fn next(self) -> Option<Self> {\n"@
        + "        match self {\n"@ + arms_text(self_paths(vs), shift_next_rhs(vs)) + "        }\n"@
        + "    }\n"@ + "    pub fn prev(self) -> Option<Self> {\n"@ + "        match self {\n"@
        + arms_text(self_paths(vs), shift_prev_rhs(vs)) + "        }\n"@ + "    }\n"@ + "}\n"@
}

/// The whole emitted unit of the iteration generator: a cursor type wrapping
/// an optional variant, a constructor fixed to the first declared variant, a
/// standard iterator implementation whose transition arms step through the
/// declaration order into an absorbing `None`, and a method on the original
/// type building a cursor that starts at the receiver's own value.
pub open spec fn iter_impl_text(name: Seq<char>, vs: Seq<Seq<char>>) -> Seq<char> {
    let cn = cursor_type_name(name);
    "struct "@ + cn + "(Option<"@ + name + ">);\n"@ + "\n"@ + "impl "@ + cn + " {\n"@
        + "    fn new() -> Self {\n"@ + "        Self(Some("@ + name + "::"@ + vs[0] + "))\n"@
        + "    }\n"@ + "}\n"@ + "\n"@ + "impl Iterator for "@ + cn + " {\n"@ + "    type Item = "@
        + name + ";\n"@ + "    fn next(&mut self) -> Option<Self::Item> {\n"@
        + "        let ret = self.0.clone();\n"@ + "        self.0 = match self.0 {\n"@ + arms_text(
        iter_lhs(name, vs),
        iter_rhs(name, vs),
    ) + "            None => None,\n"@ + "        };\n"@ + "        ret\n"@ + "    }\n"@ + "}\n"@
        + "\n"@ + "impl "@ + name + " {\n"@ + "    fn iter(&self) -> "@ + cn + " {\n"@ + "        "@
        + cn + "(Some(self.clone()))\n"@ + "    }\n"@ + "}\n"@
}

/// An owned copy of a borrowed piece of source text.
fn str_owned(s: &str) -> (r: String)
    ensures
        r@ == s@,
{
    let mut t = String::new();
    t.append(s);
    proof {
        assert(t@ =~= s@);
    }
    t
}

/// Append one match arm line.
fn push_arm(out: &mut String, lhs: &str, rhs: &str)
    ensures
        final (out)@ == old(out)@ + match_arm_text(lhs@, rhs@),
{
    out.append("            ");
    out.append(lhs);
    out.append(" => ");
    out.append(rhs);
    out.append(",\n");
    proof {
        assert(out@ =~= old(out)@ + match_arm_text(lhs@, rhs@));
    }
}

/// Append every match arm line, pairing the two lists positionally.
fn render_arms(out: &mut String, lhs: &Vec<String>, rhs: &Vec<String>)
    requires
        lhs@.len() == rhs@.len(),
    ensures
        final (out)@ == old(out)@ + arms_text(name_views(lhs@), name_views(rhs@)),
{
    let n = lhs.len();
    let mut k: usize = 0;
    while k < n
        invariant
            k <= n,
            n == lhs@.len(),
            n == rhs@.len(),
            out@ == old(out)@ + arms_text_upto(name_views(lhs@), name_views(rhs@), k as int),
        decreases n - k,
    {
        push_arm(out, lhs[k].as_str(), rhs[k].as_str());
        k += 1;
        proof {
            assert(name_views(lhs@)[k - 1] == lhs@[k - 1]@);
            assert(name_views(rhs@)[k - 1] == rhs@[k - 1]@);
            assert(out@ =~= old(out)@ + arms_text_upto(
                name_views(lhs@),
                name_views(rhs@),
                k as int,
            ));
        }
    }
}

/// Render `Self::V`.
fn self_path_of(v: &String) -> (r: String)
    ensures
        r@ == self_path(v@),
{
    let mut s = str_owned("Self::");
    s.append(v.as_str());
    s
}

/// Render `Name::V`.
fn type_path_of(name: &String, v: &String) -> (r: String)
    ensures
        r@ == type_path(name@, v@),
{
    let mut s = name.clone();
    s.append("::");
    s.append(v.as_str());
    s
}

/// Render `Some(p)` around an already rendered pattern.
fn some_of_path(p: String) -> (r: String)
    ensures
        r@ == some_of(p@),
{
    let mut s = str_owned("Some(");
    s.append(p.as_str());
    s.append(")");
    s
}

/// Code emitter of the rotate generator: from the type's identifier and its
/// ordered variant identifiers, the emitted impl block, with both methods'
/// match arms driven by the cyclic transition table.
pub fn emit_rotate(name: &String, vs: &Vec<String>) -> (r: String)
    ensures
        r@ == rotate_impl_text(name@, name_views(vs@)),
{
    let n = vs.len();
    let table = TransitionTable::rotate(n);
    let mut lhs: Vec<String> = Vec::new();
    let mut rhs_next: Vec<String> = Vec::new();
    let mut rhs_prev: Vec<String> = Vec::new();
    let mut i: usize = 0;
    while i < n
        invariant
            i <= n,
            n == vs@.len(),
            table.entries@.len() == n,
            forall|j: int| 0 <= j < n ==> entry_is_rotate(#[trigger] table.entries@[j], j, n as int),
            lhs@.len() == i,
            rhs_next@.len() == i,
            rhs_prev@.len() == i,
            forall|j: int| 0 <= j < i ==> (#[trigger] lhs@[j])@ == self_path(vs@[j]@),
            forall|j: int|
                0 <= j < i ==> (#[trigger] rhs_next@[j])@ == self_path(
                    vs@[rotate_succ(j, n as int)]@,
                ),
            forall|j: int|
                0 <= j < i ==> (#[trigger] rhs_prev@[j])@ == self_path(
                    vs@[rotate_pred(j, n as int)]@,
                ),
        decreases n - i,
    {
        lhs.push(self_path_of(&vs[i]));
        let e = table.entries[i];
        match (e.succ, e.pred) {
            (Some(s), Some(p)) => {
                rhs_next.push(self_path_of(&vs[s]));
                rhs_prev.push(self_path_of(&vs[p]));
            },
            _ => {
                proof {
                    assert(false);
                }
            },
        }
        i += 1;
    }
    proof {
        assert(name_views(lhs@) =~= self_paths(name_views(vs@)));
        assert(name_views(rhs_next@) =~= rotate_next_rhs(name_views(vs@)));
        assert(name_views(rhs_prev@) =~= rotate_prev_rhs(name_views(vs@)));
    }
    let mut out = str_owned("impl ");
    out.append(name.as_str());
    out.append(" {\n");
    out.append("    pub fn next(self) -> Self {\n");
    out.append("        match self {\n");
    render_arms(&mut out, &lhs, &rhs_next);
    out.append("        }\n");
    out.append("    }\n");
    out.append("    pub fn prev(self) -> Self {\n");
    out.append("        match self {\n");
    render_arms(&mut out, &lhs, &rhs_prev);
    out.append("        }\n");
    out.append("    }\n");
    out.append("}\n");
    out
}

/// Code emitter of the shift generator: from the type's identifier and its
/// ordered variant identifiers, the emitted impl block, with both methods'
/// match arms driven by the bounded transition table.
pub fn emit_shift(name: &String, vs: &Vec<String>) -> (r: String)
    ensures
        r@ == shift_impl_text(name@, name_views(vs@)),
{
    let n = vs.len();
    let table = TransitionTable::shift(n);
    let mut lhs: Vec<String> = Vec::new();
    let mut rhs_next: Vec<String> = Vec::new();
    let mut rhs_prev: Vec<String> = Vec::new();
    let mut i: usize = 0;
    while i < n
        invariant
            i <= n,
            n == vs@.len(),
            table.entries@.len() == n,
            forall|j: int| 0 <= j < n ==> entry_is_shift(#[trigger] table.entries@[j], j, n as int),
            lhs@.len() == i,
            rhs_next@.len() == i,
            rhs_prev@.len() == i,
            forall|j: int| 0 <= j < i ==> (#[trigger] lhs@[j])@ == self_path(vs@[j]@),
            forall|j: int|
                0 <= j < i ==> (#[trigger] rhs_next@[j])@ == shift_next_rhs(name_views(vs@))[j],
            forall|j: int|
                0 <= j < i ==> (#[trigger] rhs_prev@[j])@ == shift_prev_rhs(name_views(vs@))[j],
        decreases n - i,
    {
        lhs.push(self_path_of(&vs[i]));
        let e = table.entries[i];
        match e.succ {
            Some(s) => rhs_next.push(some_of_path(self_path_of(&vs[s]))),
            None => rhs_next.push(str_owned("None")),
        }
        match e.pred {
            Some(p) => rhs_prev.push(some_of_path(self_path_of(&vs[p]))),
            None => rhs_prev.push(str_owned("None")),
        }
        i += 1;
    }
    proof {
        assert(name_views(lhs@) =~= self_paths(name_views(vs@)));
        assert(name_views(rhs_next@) =~= shift_next_rhs(name_views(vs@)));
        assert(name_views(rhs_prev@) =~= shift_prev_rhs(name_views(vs@)));
    }
    let mut out = str_owned("impl ");
    out.append(name.as_str());
    out.append(" {\n");
    out.append("    pub fn next(self) -> Option<Self> {\n");
    out.append("        match self {\n");
    render_arms(&mut out, &lhs, &rhs_next);
    out.append("        }\n");
    out.append("    }\n");
    out.append("    pub fn prev(self) -> Option<Self> {\n");
    out.append("        match self {\n");
    render_arms(&mut out, &lhs, &rhs_prev);
    out.append("        }\n");
    out.append("    }\n");
    out.append("}\n");
    out
}

/// Code emitter of the iteration generator: from the type's identifier and
/// its ordered variant identifiers (at least one), the emitted unit: the
/// cursor type, its constructor at the first declared variant, the iterator
/// implementation whose transition arms follow the bounded successor table
/// into an absorbing `None`, and the `iter` method on the original type.
pub fn emit_iter(name: &String, vs: &Vec<String>) -> (r: String)
    requires
        vs@.len() >= 1,
    ensures
        r@ == iter_impl_text(name@, name_views(vs@)),
{
    let n = vs.len();
    let table = TransitionTable::shift(n);
    let mut lhs: Vec<String> = Vec::new();
    let mut rhs: Vec<String> = Vec::new();
    let mut i: usize = 0;
    while i < n
        invariant
            i <= n,
            n == vs@.len(),
            table.entries@.len() == n,
            forall|j: int| 0 <= j < n ==> entry_is_shift(#[trigger] table.entries@[j], j, n as int),
            lhs@.len() == i,
            rhs@.len() == i,
            forall|j: int|
                0 <= j < i ==> (#[trigger] lhs@[j])@ == some_of(type_path(name@, vs@[j]@)),
            forall|j: int|
                0 <= j < i ==> (#[trigger] rhs@[j])@ == iter_rhs(name@, name_views(vs@))[j],
        decreases n - i,
    {
        lhs.push(some_of_path(type_path_of(name, &vs[i])));
        let e = table.entries[i];
        match e.succ {
            Some(s) => rhs.push(some_of_path(type_path_of(name, &vs[s]))),
            None => rhs.push(str_owned("None")),
        }
        i += 1;
    }
    proof {
        assert(name_views(lhs@) =~= iter_lhs(name@, name_views(vs@)));
        assert(name_views(rhs@) =~= iter_rhs(name@, name_views(vs@)));
    }
    let mut cn = name.clone();
    cn.append("Iterator");
    let mut out = str_owned("struct ");
    out.append(cn.as_str());
    out.append("(Option<");
    out.append(name.as_str());
    out.append(">);\n");
    out.append("\n");
    out.append("impl ");
    out.append(cn.as_str());
    out.append(" {\n");
    out.append("    fn new() -> Self {\n");
    out.append("        Self(Some(");
    out.append(name.as_str());
    out.append("::");
    out.append(vs[0].as_str());
    out.append("))\n");
    out.append("    }\n");
    out.append("}\n");
    out.append("\n");
    out.append("impl Iterator for ");
    out.append(cn.as_str());
    out.append(" {\n");
    out.append("    type Item = ");
    out.append(name.as_str());
    out.append(";\n");
    out.append("    fn next(&mut self) -> Option<Self::Item> {\n");
    out.append("        let ret = self.0.clone();\n");
    out.append("        self.0 = match self.0 {\n");
    render_arms(&mut out, &lhs, &rhs);
    out.append("            None => None,\n");
    out.append("        };\n");
    out.append("        ret\n");
    out.append("    }\n");
    out.append("}\n");
    out.append("\n");
    out.append("impl ");
    out.append(name.as_str());
    out.append(" {\n");
    out.append("    fn iter(&self) -> ");
    out.append(cn.as_str());
    out.append(" {\n");
    out.append("        ");
    out.append(cn.as_str());
    out.append("(Some(self.clone()))\n");
    out.append("    }\n");
    out.append("}\n");
    out
}

} // verus!
