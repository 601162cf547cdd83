//! The serialized artifact: compact JSON for the output document.
//!
//! The field contract lives here: optional and empty fields are omitted
//! rather than written as null or empty, the `<inferred>` sentinel is
//! omitted wherever it would appear, and flags are encoded as the
//! integers `0` and `1`.  Every rendering function is specified down to
//! the character.

use vstd::prelude::*;
use vstd::string::*;
use crate::output::{BodyView, ClosureView, CrateMetaView, FieldView, FileView, ItemView,
    LocalView, OutputView, ParamView, RefView, TraitItemView, CrateMetadata, ClosureInfo,
    FieldInfo, FileTypeInfo, ForgenOutput, FunctionBodyInfo, ItemInfo, ItemRef, LocalVarInfo,
    ParamInfo, TraitItemInfo, VariantInfo, VariantView, skip_if_empty, skip_if_empty_body,
    skip_if_false, skip_if_inferred, spec_inferred};
use crate::text::{dec_str, push_dec, str_to_chars, chars_to_string};

verus! {

/// The character for one hexadecimal digit.
pub open spec fn hex_digit(n: nat) -> char {
    if n < 10 {
        crate::text::digit_char(n)
    } else if n == 10 {
        'a'
    } else if n == 11 {
        'b'
    } else if n == 12 {
        'c'
    } else if n == 13 {
        'd'
    } else if n == 14 {
        'e'
    } else {
        'f'
    }
}

/// How one character appears inside a JSON string literal: quotes and
/// backslashes escaped, the named control characters by their short
/// escapes, any other control character as `\u00..`.
pub open spec fn json_escape_char(c: char) -> Seq<char> {
    if c == '"' {
        seq!['\\', '"']
    } else if c == '\\' {
        seq!['\\', '\\']
    } else if c == '\u{8}' {
        seq!['\\', 'b']
    } else if c == '\t' {
        seq!['\\', 't']
    } else if c == '\n' {
        seq!['\\', 'n']
    } else if c == '\u{c}' {
        seq!['\\', 'f']
    } else if c == '\r' {
        seq!['\\', 'r']
    } else if (c as u32) < 0x20 {
        seq!['\\', 'u', '0', '0', hex_digit(((c as u32) / 16) as nat), hex_digit(
            ((c as u32) % 16) as nat,
        )]
    } else {
        seq![c]
    }
}

/// The characters of `s`, each escaped for a JSON string literal.
pub open spec fn escape_str(s: Seq<char>) -> Seq<char>
    decreases s.len(),
{
    if s.len() == 0 {
        Seq::empty()
    } else {
        escape_str(s.drop_last()) + json_escape_char(s.last())
    }
}

/// A JSON string literal holding `s`.
pub open spec fn json_string(s: Seq<char>) -> Seq<char> {
    seq!['"'] + escape_str(s) + seq!['"']
}

/// Pieces joined with commas.
pub open spec fn join_comma(parts: Seq<Seq<char>>) -> Seq<char>
    decreases parts.len(),
{
    if parts.len() == 0 {
        Seq::empty()
    } else if parts.len() == 1 {
        parts[0]
    } else {
        join_comma(parts.drop_last()) + seq![','] + parts.last()
    }
}

proof fn lemma_join_comma_step(parts: Seq<Seq<char>>, i: int)
    requires
        0 <= i < parts.len(),
    ensures
        join_comma(parts.take(i + 1)) == if i == 0 {
            parts[0]
        } else {
            join_comma(parts.take(i)) + seq![','] + parts[i]
        },
{
    let post = parts.take(i + 1);
    if i == 0 {
        assert(post.len() == 1);
        assert(post[0] == parts[0]);
    } else {
        assert(post.drop_last() =~= parts.take(i));
        assert(post.last() == parts[i]);
    }
}

fn hex_of(n: usize) -> (r: char)
    requires
        n < 16,
    ensures
        r == hex_digit(n as nat),
{
    if n < 10 {
        crate::text::digit_of(n)
    } else if n == 10 {
        'a'
    } else if n == 11 {
        'b'
    } else if n == 12 {
        'c'
    } else if n == 13 {
        'd'
    } else if n == 14 {
        'e'
    } else {
        'f'
    }
}

/// Appends the literal text of `s`.
fn push_str_chars(buf: &mut Vec<char>, s: &str)
    ensures
        final(buf)@ == old(buf)@ + s@,
{
    let mut cs = str_to_chars(s);
    buf.append(&mut cs);
}

/// Appends one character, escaped for a JSON string literal.
fn push_escape(buf: &mut Vec<char>, c: char)
    ensures
        final(buf)@ == old(buf)@ + json_escape_char(c),
{
    if c == '"' {
        buf.push('\\');
        buf.push('"');
        proof {
            assert(buf@ =~= old(buf)@ + json_escape_char(c));
        }
    } else if c == '\\' {
        buf.push('\\');
        buf.push('\\');
        proof {
            assert(buf@ =~= old(buf)@ + json_escape_char(c));
        }
    } else if c == '\u{8}' {
        buf.push('\\');
        buf.push('b');
        proof {
            assert(buf@ =~= old(buf)@ + json_escape_char(c));
        }
    } else if c == '\t' {
        buf.push('\\');
        buf.push('t');
        proof {
            assert(buf@ =~= old(buf)@ + json_escape_char(c));
        }
    } else if c == '\n' {
        buf.push('\\');
        buf.push('n');
        proof {
            assert(buf@ =~= old(buf)@ + json_escape_char(c));
        }
    } else if c == '\u{c}' {
        buf.push('\\');
        buf.push('f');
        proof {
            assert(buf@ =~= old(buf)@ + json_escape_char(c));
        }
    } else if (c as u32) < 0x20 {
        if c == '\r' {
            buf.push('\\');
            buf.push('r');
            proof {
                assert(buf@ =~= old(buf)@ + json_escape_char(c));
            }
        } else {
            let code = (c as u32) as usize;
            buf.push('\\');
            buf.push('u');
            buf.push('0');
            buf.push('0');
            buf.push(hex_of(code / 16));
            buf.push(hex_of(code % 16));
            proof {
                assert(buf@ =~= old(buf)@ + json_escape_char(c));
            }
        }
    } else {
        buf.push(c);
        proof {
            assert(buf@ =~= old(buf)@ + json_escape_char(c));
        }
    }
}

/// Appends a JSON string literal holding `s`.
fn push_json_string(buf: &mut Vec<char>, s: &str)
    ensures
        final(buf)@ == old(buf)@ + json_string(s@),
{
    let ghost start = buf@;
    buf.push('"');
    let cs = str_to_chars(s);
    let n = cs.len();
    let mut i: usize = 0;
    while i < n
        invariant
            n == cs@.len(),
            cs@ == s@,
            i <= n,
            buf@ == start + seq!['"'] + escape_str(s@.take(i as int)),
        decreases n - i,
    {
        proof {
            assert(s@.take(i as int + 1).drop_last() =~= s@.take(i as int));
            assert(s@.take(i as int + 1).last() == s@[i as int]);
        }
        push_escape(buf, cs[i]);
        proof {
            assert(buf@ =~= start + seq!['"'] + escape_str(s@.take(i as int + 1)));
        }
        i += 1;
    }
    buf.push('"');
    proof {
        assert(s@.take(n as int) =~= s@);
        assert(buf@ =~= start + json_string(s@));
    }
}

// --- Record renderings ---

pub open spec fn ref_json(r: RefView) -> Seq<char> {
    "{\"path\":"@ + json_string(r.path) + ",\"id\":"@ + json_string(r.id) + (match r.defined_in {
        Some(d) => ",\"defined_in\":"@ + json_string(d),
        None => Seq::empty(),
    }) + "}"@
}

pub open spec fn param_json(p: ParamView) -> Seq<char> {
    "{\"name\":"@ + json_string(p.name) + (if p.ty == spec_inferred() {
        Seq::empty()
    } else {
        ",\"ty\":"@ + json_string(p.ty)
    }) + (match p.type_ref {
        Some(r) => ",\"ref\":"@ + ref_json(r),
        None => Seq::empty(),
    }) + "}"@
}

pub open spec fn field_json(f: FieldView) -> Seq<char> {
    "{\"name\":"@ + json_string(f.name) + ",\"ty\":"@ + json_string(f.ty) + (match f.type_ref {
        Some(r) => ",\"ref\":"@ + ref_json(r),
        None => Seq::empty(),
    }) + "}"@
}

pub open spec fn variant_json(v: VariantView) -> Seq<char> {
    "{\"name\":"@ + json_string(v.name) + (if v.fields.len() == 0 {
        Seq::empty()
    } else {
        ",\"fields\":["@ + join_comma(v.fields.map_values(|f: FieldView| field_json(f))) + "]"@
    }) + "}"@
}

pub open spec fn trait_item_json(t: TraitItemView) -> Seq<char> {
    match t {
        TraitItemView::Function { name, params, return_type } => "{\"kind\":\"function\",\"name\":"@
            + json_string(name) + (if params.len() == 0 {
            Seq::empty()
        } else {
            ",\"params\":["@ + join_comma(params.map_values(|p: ParamView| param_json(p))) + "]"@
        }) + ",\"ret\":"@ + json_string(return_type) + "}"@,
        TraitItemView::TypeAlias { name } => "{\"kind\":\"type_alias\",\"name\":"@ + json_string(
            name,
        ) + "}"@,
        TraitItemView::Const { name, ty } => "{\"kind\":\"const\",\"name\":"@ + json_string(name)
            + ",\"ty\":"@ + json_string(ty) + "}"@,
    }
}

pub open spec fn local_json(l: LocalView) -> Seq<char> {
    "{"@ + (match l.name {
        Some(n) => "\"name\":"@ + json_string(n) + ","@,
        None => Seq::empty(),
    }) + (if l.ty == spec_inferred() {
        Seq::empty()
    } else {
        "\"ty\":"@ + json_string(l.ty) + ","@
    }) + "\"id\":"@ + dec_str(l.id as nat) + ",\"mut\":"@ + (if l.mutable {
        "1"@
    } else {
        "0"@
    }) + "}"@
}

pub open spec fn closure_json(c: ClosureView) -> Seq<char> {
    "{\"id\":"@ + dec_str(c.id as nat) + (if c.params.len() == 0 {
        Seq::empty()
    } else {
        ",\"params\":["@ + join_comma(c.params.map_values(|p: ParamView| param_json(p))) + "]"@
    }) + (if c.return_type == spec_inferred() {
        Seq::empty()
    } else {
        ",\"ret\":"@ + json_string(c.return_type)
    }) + "}"@
}

pub open spec fn body_json(b: BodyView) -> Seq<char> {
    "{"@ + (if b.locals.len() == 0 {
        Seq::empty()
    } else {
        "\"locals\":["@ + join_comma(b.locals.map_values(|l: LocalView| local_json(l))) + "]"@
    }) + (if b.closures.len() == 0 {
        Seq::empty()
    } else {
        (if b.locals.len() == 0 {
            Seq::empty()
        } else {
            ","@
        }) + "\"closures\":["@ + join_comma(
            b.closures.map_values(|c: ClosureView| closure_json(c)),
        ) + "]"@
    }) + "}"@
}

// --- Record writers ---

fn push_ref_json(buf: &mut Vec<char>, r: &ItemRef)
    ensures
        final(buf)@ == old(buf)@ + ref_json(r@),
{
    push_str_chars(buf, "{\"path\":");
    push_json_string(buf, r.path.as_str());
    push_str_chars(buf, ",\"id\":");
    push_json_string(buf, r.id.as_str());
    match &r.defined_in {
        Some(d) => {
            push_str_chars(buf, ",\"defined_in\":");
            push_json_string(buf, d.as_str());
        },
        None => {},
    }
    push_str_chars(buf, "}");
    proof {
        assert(buf@ =~= old(buf)@ + ref_json(r@));
    }
}

fn push_param_json(buf: &mut Vec<char>, p: &ParamInfo)
    ensures
        final(buf)@ == old(buf)@ + param_json(p@),
{
    push_str_chars(buf, "{\"name\":");
    push_json_string(buf, p.name.as_str());
    if !skip_if_inferred(p.ty.as_str()) {
        push_str_chars(buf, ",\"ty\":");
        push_json_string(buf, p.ty.as_str());
    }
    match &p.type_ref {
        Some(r) => {
            push_str_chars(buf, ",\"ref\":");
            push_ref_json(buf, r);
        },
        None => {},
    }
    push_str_chars(buf, "}");
    proof {
        assert(buf@ =~= old(buf)@ + param_json(p@));
    }
}

fn push_param_list(buf: &mut Vec<char>, params: &Vec<ParamInfo>)
    ensures
        final(buf)@ == old(buf)@ + join_comma(
            params@.map_values(|p: ParamInfo| p@).map_values(|pv: ParamView| param_json(pv)),
        ),
{
    let ghost start = buf@;
    let ghost m = params@.map_values(|p: ParamInfo| p@).map_values(
        |pv: ParamView| param_json(pv),
    );
    let n = params.len();
    let mut i: usize = 0;
    proof {
        assert(m.take(0) =~= Seq::<Seq<char>>::empty());
    }
    while i < n
        invariant
            n == params@.len(),
            m == params@.map_values(|p: ParamInfo| p@).map_values(|pv: ParamView| param_json(pv)),
            m.len() == n,
            i <= n,
            buf@ == start + join_comma(m.take(i as int)),
        decreases n - i,
    {
        if i > 0 {
            push_str_chars(buf, ",");
        }
        push_param_json(buf, &params[i]);
        proof {
            lemma_join_comma_step(m, i as int);
            assert(m[i as int] == param_json(params@[i as int]@));
            if i > 0 {
                assert(buf@ =~= start + (join_comma(m.take(i as int)) + ","@ + m[i as int]));
                reveal_strlit(",");
                assert(","@ =~= seq![',']);
                assert(buf@ =~= start + join_comma(m.take(i as int + 1)));
            } else {
                assert(buf@ =~= start + join_comma(m.take(1)));
            }
        }
        i += 1;
    }
    proof {
        assert(m.take(n as int) =~= m);
    }
}

fn push_field_json(buf: &mut Vec<char>, f: &FieldInfo)
    ensures
        final(buf)@ == old(buf)@ + field_json(f@),
{
    push_str_chars(buf, "{\"name\":");
    push_json_string(buf, f.name.as_str());
    push_str_chars(buf, ",\"ty\":");
    push_json_string(buf, f.ty.as_str());
    match &f.type_ref {
        Some(r) => {
            push_str_chars(buf, ",\"ref\":");
            push_ref_json(buf, r);
        },
        None => {},
    }
    push_str_chars(buf, "}");
    proof {
        assert(buf@ =~= old(buf)@ + field_json(f@));
    }
}

fn push_field_list(buf: &mut Vec<char>, fields: &Vec<FieldInfo>)
    ensures
        final(buf)@ == old(buf)@ + join_comma(
            fields@.map_values(|f: FieldInfo| f@).map_values(|fv: FieldView| field_json(fv)),
        ),
{
    let ghost start = buf@;
    let ghost m = fields@.map_values(|f: FieldInfo| f@).map_values(
        |fv: FieldView| field_json(fv),
    );
    let n = fields.len();
    let mut i: usize = 0;
    proof {
        assert(m.take(0) =~= Seq::<Seq<char>>::empty());
    }
    while i < n
        invariant
            n == fields@.len(),
            m == fields@.map_values(|f: FieldInfo| f@).map_values(|fv: FieldView| field_json(fv)),
            m.len() == n,
            i <= n,
            buf@ == start + join_comma(m.take(i as int)),
        decreases n - i,
    {
        if i > 0 {
            push_str_chars(buf, ",");
        }
        push_field_json(buf, &fields[i]);
        proof {
            lemma_join_comma_step(m, i as int);
            assert(m[i as int] == field_json(fields@[i as int]@));
            if i > 0 {
                reveal_strlit(",");
                assert(","@ =~= seq![',']);
                assert(buf@ =~= start + join_comma(m.take(i as int + 1)));
            } else {
                assert(buf@ =~= start + join_comma(m.take(1)));
            }
        }
        i += 1;
    }
    proof {
        assert(m.take(n as int) =~= m);
    }
}

fn push_variant_json(buf: &mut Vec<char>, v: &VariantInfo)
    ensures
        final(buf)@ == old(buf)@ + variant_json(v@),
{
    push_str_chars(buf, "{\"name\":");
    push_json_string(buf, v.name.as_str());
    if !skip_if_empty(&v.fields) {
        push_str_chars(buf, ",\"fields\":[");
        push_field_list(buf, &v.fields);
        push_str_chars(buf, "]");
    }
    push_str_chars(buf, "}");
    proof {
        assert(buf@ =~= old(buf)@ + variant_json(v@));
    }
}

fn push_trait_item_json(buf: &mut Vec<char>, t: &TraitItemInfo)
    ensures
        final(buf)@ == old(buf)@ + trait_item_json(t@),
{
    match t {
        TraitItemInfo::Function { name, params, return_type } => {
            push_str_chars(buf, "{\"kind\":\"function\",\"name\":");
            push_json_string(buf, name.as_str());
            if !skip_if_empty(params) {
                push_str_chars(buf, ",\"params\":[");
                push_param_list(buf, params);
                push_str_chars(buf, "]");
            }
            push_str_chars(buf, ",\"ret\":");
            push_json_string(buf, return_type.as_str());
            push_str_chars(buf, "}");
        },
        TraitItemInfo::TypeAlias { name } => {
            push_str_chars(buf, "{\"kind\":\"type_alias\",\"name\":");
            push_json_string(buf, name.as_str());
            push_str_chars(buf, "}");
        },
        TraitItemInfo::Const { name, ty } => {
            push_str_chars(buf, "{\"kind\":\"const\",\"name\":");
            push_json_string(buf, name.as_str());
            push_str_chars(buf, ",\"ty\":");
            push_json_string(buf, ty.as_str());
            push_str_chars(buf, "}");
        },
    }
    proof {
        assert(buf@ =~= old(buf)@ + trait_item_json(t@));
    }
}

#[verifier::spinoff_prover]
#[verifier::rlimit(100)]
fn push_local_json(buf: &mut Vec<char>, l: &LocalVarInfo)
    ensures
        final(buf)@ == old(buf)@ + local_json(l@),
{
    push_str_chars(buf, "{");
    match &l.name {
        Some(n) => {
            push_str_chars(buf, "\"name\":");
            push_json_string(buf, n.as_str());
            push_str_chars(buf, ",");
        },
        None => {},
    }
    if !skip_if_inferred(l.ty.as_str()) {
        push_str_chars(buf, "\"ty\":");
        push_json_string(buf, l.ty.as_str());
        push_str_chars(buf, ",");
    }
    push_str_chars(buf, "\"id\":");
    push_dec(l.id, buf);
    push_str_chars(buf, ",\"mut\":");
    if l.mutable {
        push_str_chars(buf, "1");
    } else {
        push_str_chars(buf, "0");
    }
    push_str_chars(buf, "}");
    proof {
        assert(buf@ =~= old(buf)@ + local_json(l@));
    }
}

#[verifier::spinoff_prover]
#[verifier::rlimit(100)]
fn push_closure_json(buf: &mut Vec<char>, c: &ClosureInfo)
    ensures
        final(buf)@ == old(buf)@ + closure_json(c@),
{
    push_str_chars(buf, "{\"id\":");
    push_dec(c.id, buf);
    if !skip_if_empty(&c.params) {
        push_str_chars(buf, ",\"params\":[");
        push_param_list(buf, &c.params);
        push_str_chars(buf, "]");
    }
    if !skip_if_inferred(c.return_type.as_str()) {
        push_str_chars(buf, ",\"ret\":");
        push_json_string(buf, c.return_type.as_str());
    }
    push_str_chars(buf, "}");
    proof {
        assert(buf@ =~= old(buf)@ + closure_json(c@));
    }
}

#[verifier::spinoff_prover]
#[verifier::rlimit(100)]
fn push_body_json(buf: &mut Vec<char>, b: &FunctionBodyInfo)
    ensures
        final(buf)@ == old(buf)@ + body_json(b@),
{
    let ghost start = buf@;
    push_str_chars(buf, "{");
    if !skip_if_empty(&b.locals) {
        push_str_chars(buf, "\"locals\":[");
        let ghost m = b.locals@.map_values(|l: LocalVarInfo| l@).map_values(
            |lv: LocalView| local_json(lv),
        );
        let ghost mid = buf@;
        let n = b.locals.len();
        let mut i: usize = 0;
        proof {
            assert(m.take(0) =~= Seq::<Seq<char>>::empty());
        }
        while i < n
            invariant
                n == b.locals@.len(),
                m == b.locals@.map_values(|l: LocalVarInfo| l@).map_values(
                    |lv: LocalView| local_json(lv),
                ),
                m.len() == n,
                i <= n,
                buf@ == mid + join_comma(m.take(i as int)),
            decreases n - i,
        {
            if i > 0 {
                push_str_chars(buf, ",");
            }
            push_local_json(buf, &b.locals[i]);
            proof {
                lemma_join_comma_step(m, i as int);
                assert(m[i as int] == local_json(b.locals@[i as int]@));
                if i > 0 {
                    reveal_strlit(",");
                assert(","@ =~= seq![',']);
                    assert(buf@ =~= mid + join_comma(m.take(i as int + 1)));
                } else {
                    assert(buf@ =~= mid + join_comma(m.take(1)));
                }
            }
            i += 1;
        }
        proof {
            assert(m.take(n as int) =~= m);
        }
        push_str_chars(buf, "]");
    }
    if !skip_if_empty(&b.closures) {
        if !skip_if_empty(&b.locals) {
            push_str_chars(buf, ",");
        }
        push_str_chars(buf, "\"closures\":[");
        let ghost m = b.closures@.map_values(|c: ClosureInfo| c@).map_values(
            |cv: ClosureView| closure_json(cv),
        );
        let ghost mid = buf@;
        let n = b.closures.len();
        let mut i: usize = 0;
        proof {
            assert(m.take(0) =~= Seq::<Seq<char>>::empty());
        }
        while i < n
            invariant
                n == b.closures@.len(),
                m == b.closures@.map_values(|c: ClosureInfo| c@).map_values(
                    |cv: ClosureView| closure_json(cv),
                ),
                m.len() == n,
                i <= n,
                buf@ == mid + join_comma(m.take(i as int)),
            decreases n - i,
        {
            if i > 0 {
                push_str_chars(buf, ",");
            }
            push_closure_json(buf, &b.closures[i]);
            proof {
                lemma_join_comma_step(m, i as int);
                assert(m[i as int] == closure_json(b.closures@[i as int]@));
                if i > 0 {
                    reveal_strlit(",");
                assert(","@ =~= seq![',']);
                    assert(buf@ =~= mid + join_comma(m.take(i as int + 1)));
                } else {
                    assert(buf@ =~= mid + join_comma(m.take(1)));
                }
            }
            i += 1;
        }
        proof {
            assert(m.take(n as int) =~= m);
        }
        push_str_chars(buf, "]");
    }
    push_str_chars(buf, "}");
    proof {
        assert(buf@ =~= start + body_json(b@));
    }
}


/// Whether a body record is absent or empty, at the view level.
pub open spec fn body_view_skipped(b: Option<BodyView>) -> bool {
    match b {
        None => true,
        Some(bv) => bv.locals.len() == 0 && bv.closures.len() == 0,
    }
}

/// The record of one function item.
pub open spec fn function_item_json(
    name: Seq<char>,
    id: Seq<char>,
    params: Seq<ParamView>,
    return_type: Seq<char>,
    body: Option<BodyView>,
) -> Seq<char> {
    "{\"kind\":\"function\",\"name\":"@ + json_string(name) + ",\"id\":"@ + json_string(id) + (
    if params.len() == 0 {
        Seq::empty()
    } else {
        ",\"params\":["@ + join_comma(params.map_values(|p: ParamView| param_json(p))) + "]"@
    }) + ",\"ret\":"@ + json_string(return_type) + (if body_view_skipped(body) {
        Seq::empty()
    } else {
        ",\"body\":"@ + body_json(body->0)
    }) + "}"@
}

/// One item record, tagged by kind.
pub open spec fn item_json(i: ItemView) -> Seq<char> {
    match i {
        ItemView::Function { name, id, params, return_type, body } => function_item_json(
            name,
            id,
            params,
            return_type,
            body,
        ),
        ItemView::Struct { name, id, fields } => {
            "{\"kind\":\"struct\",\"name\":"@ + json_string(name) + ",\"id\":"@ + json_string(id)
                + (if fields.len() == 0 {
                Seq::empty()
            } else {
                ",\"fields\":["@ + join_comma(fields.map_values(|f: FieldView| field_json(f)))
                    + "]"@
            }) + "}"@
        },
        ItemView::Enum { name, id, variants } => {
            "{\"kind\":\"enum\",\"name\":"@ + json_string(name) + ",\"id\":"@ + json_string(id)
                + ",\"variants\":["@ + join_comma(
                variants.map_values(|v: VariantView| variant_json(v)),
            ) + "]"@ + "}"@
        },
        ItemView::Trait { name, id, items } => {
            "{\"kind\":\"trait\",\"name\":"@ + json_string(name) + ",\"id\":"@ + json_string(id)
                + (if items.len() == 0 {
                Seq::empty()
            } else {
                ",\"items\":["@ + join_comma(
                    items.map_values(|t: TraitItemView| trait_item_json(t)),
                ) + "]"@
            }) + "}"@
        },
        ItemView::TypeAlias { name, id, target } => {
            "{\"kind\":\"type_alias\",\"name\":"@ + json_string(name) + ",\"id\":"@ + json_string(
                id,
            ) + ",\"target\":"@ + json_string(target) + "}"@
        },
        ItemView::Const { name, id, ty } => {
            "{\"kind\":\"const\",\"name\":"@ + json_string(name) + ",\"id\":"@ + json_string(id)
                + ",\"ty\":"@ + json_string(ty) + "}"@
        },
        ItemView::Static { name, id, ty } => {
            "{\"kind\":\"static\",\"name\":"@ + json_string(name) + ",\"id\":"@ + json_string(id)
                + ",\"ty\":"@ + json_string(ty) + "}"@
        },
    }
}

/// One crate metadata record: version and features only when known,
/// the local flag only when set, and then as the integer `1`.
pub open spec fn crate_json(c: CrateMetaView) -> Seq<char> {
    "{\"name\":"@ + json_string(c.name) + (match c.version {
        Some(v) => ",\"version\":"@ + json_string(v),
        None => Seq::empty(),
    }) + (if c.features.len() == 0 {
        Seq::empty()
    } else {
        ",\"features\":["@ + join_comma(c.features.map_values(|f: Seq<char>| json_string(f)))
            + "]"@
    }) + (if c.local {
        ",\"local\":1"@
    } else {
        Seq::empty()
    }) + "}"@
}

/// One file record: its normalized path and its items.
pub open spec fn file_json(f: FileView) -> Seq<char> {
    "{\"path\":"@ + json_string(f.path) + ",\"items\":["@ + join_comma(
        f.items.map_values(|i: ItemView| item_json(i)),
    ) + "]}"@
}

/// The whole document.
pub open spec fn output_json(o: OutputView) -> Seq<char> {
    "{\"crates\":["@ + join_comma(o.crates.map_values(|c: CrateMetaView| crate_json(c)))
        + "],\"files\":["@ + join_comma(o.files.map_values(|f: FileView| file_json(f))) + "]}"@
}

#[verifier::spinoff_prover]
#[verifier::rlimit(100)]
fn push_function_item(
    buf: &mut Vec<char>,
    name: &String,
    id: &String,
    params: &Vec<ParamInfo>,
    return_type: &String,
    body: &Option<FunctionBodyInfo>,
)
    ensures
        final(buf)@ == old(buf)@ + function_item_json(
            name@,
            id@,
            params@.map_values(|p: ParamInfo| p@),
            return_type@,
            match *body {
                Some(b) => Some(b@),
                None => None,
            },
        ),
{
    let ghost bv = match body {
        Some(b) => Some(b@),
        None => None::<BodyView>,
    };
    let ghost pvs = params@.map_values(|p: ParamInfo| p@);
    push_str_chars(buf, "{\"kind\":\"function\",\"name\":");
    push_json_string(buf, name.as_str());
    push_str_chars(buf, ",\"id\":");
    push_json_string(buf, id.as_str());
    let ghost acc1 = old(buf)@ + "{\"kind\":\"function\",\"name\":"@ + json_string(name@)
        + ",\"id\":"@ + json_string(id@);
    proof {
        assert(buf@ =~= acc1);
    }
    if !skip_if_empty(params) {
        push_str_chars(buf, ",\"params\":[");
        push_param_list(buf, params);
        push_str_chars(buf, "]");
    }
    let ghost acc2 = acc1 + (if pvs.len() == 0 {
        Seq::<char>::empty()
    } else {
        ",\"params\":["@ + join_comma(pvs.map_values(|p: ParamView| param_json(p))) + "]"@
    });
    proof {
        assert(buf@ =~= acc2);
    }
    push_str_chars(buf, ",\"ret\":");
    push_json_string(buf, return_type.as_str());
    let ghost acc3 = acc2 + ",\"ret\":"@ + json_string(return_type@);
    proof {
        assert(buf@ =~= acc3);
    }
    if !skip_if_empty_body(body) {
        push_str_chars(buf, ",\"body\":");
        match body {
            Some(b) => push_body_json(buf, b),
            None => {
                proof {
                    assert(false);
                }
            },
        }
    }
    let ghost acc4 = acc3 + (if body_view_skipped(bv) {
        Seq::<char>::empty()
    } else {
        ",\"body\":"@ + body_json(bv->0)
    });
    proof {
        assert(!body_view_skipped(bv) ==> bv is Some);
        assert(buf@ =~= acc4);
    }
    push_str_chars(buf, "}");
    proof {
        assert(buf@ =~= acc4 + "}"@);
        assert(acc4 + "}"@ =~= old(buf)@ + function_item_json(name@, id@, pvs, return_type@, bv));
    }
}

#[verifier::spinoff_prover]
#[verifier::rlimit(100)]
fn push_struct_item(buf: &mut Vec<char>, name: &String, id: &String, fields: &Vec<FieldInfo>)
    ensures
        final(buf)@ == old(buf)@ + item_json(
            ItemView::Struct {
                name: name@,
                id: id@,
                fields: fields@.map_values(|f: FieldInfo| f@),
            },
        ),
{
    push_str_chars(buf, "{\"kind\":\"struct\",\"name\":");
    push_json_string(buf, name.as_str());
    push_str_chars(buf, ",\"id\":");
    push_json_string(buf, id.as_str());
    if !skip_if_empty(fields) {
        push_str_chars(buf, ",\"fields\":[");
        push_field_list(buf, fields);
        push_str_chars(buf, "]");
    }
    push_str_chars(buf, "}");
    proof {
        assert(buf@ =~= old(buf)@ + item_json(
            ItemView::Struct {
                name: name@,
                id: id@,
                fields: fields@.map_values(|f: FieldInfo| f@),
            },
        ));
    }
}

#[verifier::spinoff_prover]
#[verifier::rlimit(100)]
fn push_enum_item(buf: &mut Vec<char>, name: &String, id: &String, variants: &Vec<VariantInfo>)
    ensures
        final(buf)@ == old(buf)@ + item_json(
            ItemView::Enum {
                name: name@,
                id: id@,
                variants: variants@.map_values(|v: VariantInfo| v@),
            },
        ),
{
    push_str_chars(buf, "{\"kind\":\"enum\",\"name\":");
    push_json_string(buf, name.as_str());
    push_str_chars(buf, ",\"id\":");
    push_json_string(buf, id.as_str());
    push_str_chars(buf, ",\"variants\":[");
    let ghost m = variants@.map_values(|v: VariantInfo| v@).map_values(
        |vv: VariantView| variant_json(vv),
    );
    let ghost mid = buf@;
    let n = variants.len();
    let mut i: usize = 0;
    proof {
        assert(m.take(0) =~= Seq::<Seq<char>>::empty());
    }
    while i < n
        invariant
            n == variants@.len(),
            m == variants@.map_values(|v: VariantInfo| v@).map_values(
                |vv: VariantView| variant_json(vv),
            ),
            m.len() == n,
            i <= n,
            buf@ == mid + join_comma(m.take(i as int)),
        decreases n - i,
    {
        if i > 0 {
            push_str_chars(buf, ",");
        }
        push_variant_json(buf, &variants[i]);
        proof {
            lemma_join_comma_step(m, i as int);
            assert(m[i as int] == variant_json(variants@[i as int]@));
            reveal_strlit(",");
            assert(","@ =~= seq![',']);
            if i > 0 {
                assert(buf@ =~= mid + join_comma(m.take(i as int + 1)));
            } else {
                assert(buf@ =~= mid + join_comma(m.take(1)));
            }
        }
        i += 1;
    }
    proof {
        assert(m.take(n as int) =~= m);
    }
    push_str_chars(buf, "]");
    push_str_chars(buf, "}");
    proof {
        assert(buf@ =~= old(buf)@ + item_json(
            ItemView::Enum {
                name: name@,
                id: id@,
                variants: variants@.map_values(|v: VariantInfo| v@),
            },
        ));
    }
}

#[verifier::spinoff_prover]
#[verifier::rlimit(100)]
fn push_trait_item(buf: &mut Vec<char>, name: &String, id: &String, items: &Vec<TraitItemInfo>)
    ensures
        final(buf)@ == old(buf)@ + item_json(
            ItemView::Trait {
                name: name@,
                id: id@,
                items: items@.map_values(|t: TraitItemInfo| t@),
            },
        ),
{
    push_str_chars(buf, "{\"kind\":\"trait\",\"name\":");
    push_json_string(buf, name.as_str());
    push_str_chars(buf, ",\"id\":");
    push_json_string(buf, id.as_str());
    if !skip_if_empty(items) {
        push_str_chars(buf, ",\"items\":[");
        let ghost m = items@.map_values(|t: TraitItemInfo| t@).map_values(
            |tv: TraitItemView| trait_item_json(tv),
        );
        let ghost mid = buf@;
        let n = items.len();
        let mut i: usize = 0;
        proof {
            assert(m.take(0) =~= Seq::<Seq<char>>::empty());
        }
        while i < n
            invariant
                n == items@.len(),
                m == items@.map_values(|t: TraitItemInfo| t@).map_values(
                    |tv: TraitItemView| trait_item_json(tv),
                ),
                m.len() == n,
                i <= n,
                buf@ == mid + join_comma(m.take(i as int)),
            decreases n - i,
        {
            if i > 0 {
                push_str_chars(buf, ",");
            }
            push_trait_item_json(buf, &items[i]);
            proof {
                lemma_join_comma_step(m, i as int);
                assert(m[i as int] == trait_item_json(items@[i as int]@));
                reveal_strlit(",");
                assert(","@ =~= seq![',']);
                if i > 0 {
                    assert(buf@ =~= mid + join_comma(m.take(i as int + 1)));
                } else {
                    assert(buf@ =~= mid + join_comma(m.take(1)));
                }
            }
            i += 1;
        }
        proof {
            assert(m.take(n as int) =~= m);
        }
        push_str_chars(buf, "]");
    }
    push_str_chars(buf, "}");
    proof {
        assert(buf@ =~= old(buf)@ + item_json(
            ItemView::Trait {
                name: name@,
                id: id@,
                items: items@.map_values(|t: TraitItemInfo| t@),
            },
        ));
    }
}

#[verifier::spinoff_prover]
#[verifier::rlimit(100)]
fn push_item_json(buf: &mut Vec<char>, item: &ItemInfo)
    ensures
        final(buf)@ == old(buf)@ + item_json(item@),
{
    match item {
        ItemInfo::Function { name, id, params, return_type, body } => {
            push_function_item(buf, name, id, params, return_type, body);
        },
        ItemInfo::Struct { name, id, fields } => {
            push_struct_item(buf, name, id, fields);
        },
        ItemInfo::Enum { name, id, variants } => {
            push_enum_item(buf, name, id, variants);
        },
        ItemInfo::Trait { name, id, items } => {
            push_trait_item(buf, name, id, items);
        },
        ItemInfo::TypeAlias { name, id, target } => {
            push_str_chars(buf, "{\"kind\":\"type_alias\",\"name\":");
            push_json_string(buf, name.as_str());
            push_str_chars(buf, ",\"id\":");
            push_json_string(buf, id.as_str());
            push_str_chars(buf, ",\"target\":");
            push_json_string(buf, target.as_str());
            push_str_chars(buf, "}");
            proof {
                assert(buf@ =~= old(buf)@ + item_json(item@));
            }
        },
        ItemInfo::Const { name, id, ty } => {
            push_str_chars(buf, "{\"kind\":\"const\",\"name\":");
            push_json_string(buf, name.as_str());
            push_str_chars(buf, ",\"id\":");
            push_json_string(buf, id.as_str());
            push_str_chars(buf, ",\"ty\":");
            push_json_string(buf, ty.as_str());
            push_str_chars(buf, "}");
            proof {
                assert(buf@ =~= old(buf)@ + item_json(item@));
            }
        },
        ItemInfo::Static { name, id, ty } => {
            push_str_chars(buf, "{\"kind\":\"static\",\"name\":");
            push_json_string(buf, name.as_str());
            push_str_chars(buf, ",\"id\":");
            push_json_string(buf, id.as_str());
            push_str_chars(buf, ",\"ty\":");
            push_json_string(buf, ty.as_str());
            push_str_chars(buf, "}");
            proof {
                assert(buf@ =~= old(buf)@ + item_json(item@));
            }
        },
    }
}

#[verifier::rlimit(80)]
fn push_crate_json(buf: &mut Vec<char>, c: &CrateMetadata)
    ensures
        final(buf)@ == old(buf)@ + crate_json(c@),
{
    push_str_chars(buf, "{\"name\":");
    push_json_string(buf, c.name.as_str());
    match &c.version {
        Some(v) => {
            push_str_chars(buf, ",\"version\":");
            push_json_string(buf, v.as_str());
        },
        None => {},
    }
    if !skip_if_empty(&c.features) {
        push_str_chars(buf, ",\"features\":[");
        let ghost m = c.features@.map_values(|s: String| s@).map_values(
            |f: Seq<char>| json_string(f),
        );
        let ghost mid = buf@;
        let n = c.features.len();
        let mut i: usize = 0;
        proof {
            assert(m.take(0) =~= Seq::<Seq<char>>::empty());
        }
        while i < n
            invariant
                n == c.features@.len(),
                m == c.features@.map_values(|s: String| s@).map_values(
                    |f: Seq<char>| json_string(f),
                ),
                m.len() == n,
                i <= n,
                buf@ == mid + join_comma(m.take(i as int)),
            decreases n - i,
        {
            if i > 0 {
                push_str_chars(buf, ",");
            }
            push_json_string(buf, c.features[i].as_str());
            proof {
                lemma_join_comma_step(m, i as int);
                assert(m[i as int] == json_string(c.features@[i as int]@));
                reveal_strlit(",");
                assert(","@ =~= seq![',']);
                if i > 0 {
                    assert(buf@ =~= mid + join_comma(m.take(i as int + 1)));
                } else {
                    assert(buf@ =~= mid + join_comma(m.take(1)));
                }
            }
            i += 1;
        }
        proof {
            assert(m.take(n as int) =~= m);
        }
        push_str_chars(buf, "]");
    }
    if !skip_if_false(&c.local) {
        push_str_chars(buf, ",\"local\":1");
    }
    push_str_chars(buf, "}");
    proof {
        assert(buf@ =~= old(buf)@ + crate_json(c@));
    }
}

#[verifier::rlimit(80)]
fn push_file_json(buf: &mut Vec<char>, f: &FileTypeInfo)
    ensures
        final(buf)@ == old(buf)@ + file_json(f@),
{
    push_str_chars(buf, "{\"path\":");
    push_json_string(buf, f.source_file.as_str());
    push_str_chars(buf, ",\"items\":[");
    let ghost m = f.items@.map_values(|i: ItemInfo| i@).map_values(
        |iv: ItemView| item_json(iv),
    );
    let ghost mid = buf@;
    let n = f.items.len();
    let mut i: usize = 0;
    proof {
        assert(m.take(0) =~= Seq::<Seq<char>>::empty());
    }
    while i < n
        invariant
            n == f.items@.len(),
            m == f.items@.map_values(|i: ItemInfo| i@).map_values(|iv: ItemView| item_json(iv)),
            m.len() == n,
            i <= n,
            buf@ == mid + join_comma(m.take(i as int)),
        decreases n - i,
    {
        if i > 0 {
            push_str_chars(buf, ",");
        }
        push_item_json(buf, &f.items[i]);
        proof {
            lemma_join_comma_step(m, i as int);
            assert(m[i as int] == item_json(f.items@[i as int]@));
            reveal_strlit(",");
            assert(","@ =~= seq![',']);
            if i > 0 {
                assert(buf@ =~= mid + join_comma(m.take(i as int + 1)));
            } else {
                assert(buf@ =~= mid + join_comma(m.take(1)));
            }
        }
        i += 1;
    }
    proof {
        assert(m.take(n as int) =~= m);
    }
    push_str_chars(buf, "]}");
    proof {
        assert(buf@ =~= old(buf)@ + file_json(f@));
    }
}

/// The compact JSON text of a whole output document.
#[verifier::rlimit(80)]
pub fn to_json(output: &ForgenOutput) -> (r: String)
    ensures
        r@ == output_json(output@),
{
    let mut buf: Vec<char> = Vec::new();
    push_str_chars(&mut buf, "{\"crates\":[");
    let ghost m = output.crates@.map_values(|c: CrateMetadata| c@).map_values(
        |cv: CrateMetaView| crate_json(cv),
    );
    let ghost mid = buf@;
    let n = output.crates.len();
    let mut i: usize = 0;
    proof {
        assert(m.take(0) =~= Seq::<Seq<char>>::empty());
    }
    while i < n
        invariant
            n == output.crates@.len(),
            m == output.crates@.map_values(|c: CrateMetadata| c@).map_values(
                |cv: CrateMetaView| crate_json(cv),
            ),
            m.len() == n,
            i <= n,
            buf@ == mid + join_comma(m.take(i as int)),
        decreases n - i,
    {
        if i > 0 {
            push_str_chars(&mut buf, ",");
        }
        push_crate_json(&mut buf, &output.crates[i]);
        proof {
            lemma_join_comma_step(m, i as int);
            assert(m[i as int] == crate_json(output.crates@[i as int]@));
            reveal_strlit(",");
            assert(","@ =~= seq![',']);
            if i > 0 {
                assert(buf@ =~= mid + join_comma(m.take(i as int + 1)));
            } else {
                assert(buf@ =~= mid + join_comma(m.take(1)));
            }
        }
        i += 1;
    }
    proof {
        assert(m.take(n as int) =~= m);
    }
    push_str_chars(&mut buf, "],\"files\":[");
    let ghost mf = output.files@.map_values(|f: FileTypeInfo| f@).map_values(
        |fv: FileView| file_json(fv),
    );
    let ghost mid2 = buf@;
    let nf = output.files.len();
    let mut i: usize = 0;
    proof {
        assert(mf.take(0) =~= Seq::<Seq<char>>::empty());
    }
    while i < nf
        invariant
            nf == output.files@.len(),
            mf == output.files@.map_values(|f: FileTypeInfo| f@).map_values(
                |fv: FileView| file_json(fv),
            ),
            mf.len() == nf,
            i <= nf,
            buf@ == mid2 + join_comma(mf.take(i as int)),
        decreases nf - i,
    {
        if i > 0 {
            push_str_chars(&mut buf, ",");
        }
        push_file_json(&mut buf, &output.files[i]);
        proof {
            lemma_join_comma_step(mf, i as int);
            assert(mf[i as int] == file_json(output.files@[i as int]@));
            reveal_strlit(",");
            assert(","@ =~= seq![',']);
            if i > 0 {
                assert(buf@ =~= mid2 + join_comma(mf.take(i as int + 1)));
            } else {
                assert(buf@ =~= mid2 + join_comma(mf.take(1)));
            }
        }
        i += 1;
    }
    proof {
        assert(mf.take(nf as int) =~= mf);
    }
    push_str_chars(&mut buf, "]}");
    proof {
        assert(buf@ =~= output_json(output@));
    }
    chars_to_string(&buf)
}

} // verus!
