//! The code-generation helpers the modelling layer uses to cut boilerplate:
//! derive-style generators that, given the text of a struct definition,
//! emit the history container, the snapshot propagation method, the bare
//! (history-free) copy method, and the solver plumbing for that struct.
//!
//! Parsing Rust item text is delegated to `syn` behind trusted wrappers;
//! everything generated from the parsed description is verified: each
//! generator's contract pins the emitted text exactly.  All generators
//! read one marker convention: `use_state` marks a solver-state field,
//! `save_state` marks a field whose snapshot is saved, `skip_get`
//! suppresses a getter.

use vstd::prelude::*;
use vstd::string::{StrSliceExecFns, StringExecFns};

verus! {

/// One field of a parsed struct: its name, its type (as source text), and
/// whether the marker attributes were present on it.
pub struct FieldDef {
    /// field name
    pub name: String,
    /// field type, as source text
    pub ty: String,
    /// whether the field carries the attribute marking saved state
    pub save_state: bool,
    /// whether the field carries the attribute marking solver state
    pub use_state: bool,
    /// whether the field carries the attribute suppressing a getter
    pub skip_get: bool,
}

/// A parsed struct definition: its name and fields.
pub struct StructDef {
    /// struct name
    pub name: String,
    /// fields in declaration order
    pub fields: Vec<FieldDef>,
}

/// What `syn` parses a struct definition's text into, as this crate's
/// model: `None` when the text is not a struct definition.
pub uninterp spec fn parsed_struct(src: Seq<char>) -> Option<StructDef>;

/// The names of the function definitions in an attribute body, or `None`
/// when the text holds anything but function definitions.
pub uninterp spec fn parsed_fn_names(src: Seq<char>) -> Option<Vec<String>>;

/// Relies on `syn::parse_str::<syn::DeriveInput>` to parse the item text
/// and read its name, its fields with their types, and the helper
/// attributes on each field.  The result is a function of the text alone.
#[verifier::external_body]
fn parse_struct(src: &str) -> (r: Option<StructDef>)
    ensures
        r == parsed_struct(src@),
{
    let ast: syn::DeriveInput = syn::parse_str(src).ok()?;
    let fields = match ast.data {
        syn::Data::Struct(s) => s.fields,
        _ => return None,
    };
    let has = |f: &syn::Field, n: &str| f.attrs.iter().any(|a| a.path.is_ident(n));
    let fs = fields.iter().map(|f| FieldDef {
        name: f.ident.as_ref().map(|i| i.to_string()).unwrap_or_default(),
        ty: quote::ToTokens::to_token_stream(&f.ty).to_string(),
        save_state: has(f, "save_state"),
        use_state: has(f, "use_state"),
        skip_get: has(f, "skip_get"),
    }).collect();
    Some(StructDef { name: ast.ident.to_string(), fields: fs })
}

/// Relies on `syn::parse_str::<syn::ItemImpl>` to parse the attribute body
/// as the contents of an impl block and read the names of the function
/// definitions in it.  The result is a function of the text alone.
#[verifier::external_body]
fn parse_fn_names(src: &str) -> (r: Option<Vec<String>>)
    ensures
        r == parsed_fn_names(src@),
{
    let wrapped = format!("impl Dummy {{ {} }}", src);
    let item: syn::ItemImpl = syn::parse_str(&wrapped).ok()?;
    let mut out = Vec::new();
    for it in item.items {
        match it {
            syn::ImplItem::Method(m) => out.push(m.sig.ident.to_string()),
            _ => return None,
        }
    }
    Some(out)
}

/// One emitted fragment per field marked as solver state, over the first
/// `n` fields: `pre`, the field name, `post`.
pub open spec fn marked_calls(fs: Seq<FieldDef>, n: nat, pre: Seq<char>, post: Seq<char>) -> Seq<
    char,
>
    decreases n,
{
    if n == 0 {
        Seq::empty()
    } else {
        marked_calls(fs, (n - 1) as nat, pre, post) + (if fs[n - 1].use_state {
            pre + fs[n - 1].name@ + post
        } else {
            Seq::<char>::empty()
        })
    }
}

/// One emitted fragment per field, over the first `n` fields: `pre`, the
/// field name, `post`.
pub open spec fn field_calls(fs: Seq<FieldDef>, n: nat, pre: Seq<char>, post: Seq<char>) -> Seq<
    char,
>
    decreases n,
{
    if n == 0 {
        Seq::empty()
    } else {
        field_calls(fs, (n - 1) as nat, pre, post) + pre + fs[n - 1].name@ + post
    }
}

fn emit_marked(out: &mut String, fields: &Vec<FieldDef>, pre: &str, post: &str)
    ensures
        final(out)@ == old(out)@ + marked_calls(fields@, fields@.len(), pre@, post@),
{
    let ghost base = old(out)@;
    let mut j: usize = 0;
    while j < fields.len()
        invariant
            j <= fields@.len(),
            out@ =~= base + marked_calls(fields@, j as nat, pre@, post@),
        decreases fields@.len() - j,
    {
        if fields[j].use_state {
            out.append(pre);
            out.append(fields[j].name.as_str());
            out.append(post);
        }
        j = j + 1;
    }
    proof {
        assert(out@ =~= base + marked_calls(fields@, fields@.len(), pre@, post@));
    }
}

fn emit_fields(out: &mut String, fields: &Vec<FieldDef>, pre: &str, post: &str)
    ensures
        final(out)@ == old(out)@ + field_calls(fields@, fields@.len(), pre@, post@),
{
    let ghost base = old(out)@;
    let mut j: usize = 0;
    while j < fields.len()
        invariant
            j <= fields@.len(),
            out@ =~= base + field_calls(fields@, j as nat, pre@, post@),
        decreases fields@.len() - j,
    {
        out.append(pre);
        out.append(fields[j].name.as_str());
        out.append(post);
        j = j + 1;
    }
    proof {
        assert(out@ =~= base + field_calls(fields@, fields@.len(), pre@, post@));
    }
}

/// The field declarations of the history container: one `Vec` column per
/// field of the state struct, over the first `n` fields.
pub open spec fn hv_field_decls(fs: Seq<FieldDef>, n: nat) -> Seq<char>
    decreases n,
{
    if n == 0 {
        Seq::empty()
    } else {
        hv_field_decls(fs, (n - 1) as nat) + " pub "@ + fs[n - 1].name@ + ": Vec<"@
            + fs[n - 1].ty@ + ">,"@
    }
}

/// The per-column pushes of the history container's `push` method.
pub open spec fn hv_field_pushes(fs: Seq<FieldDef>, n: nat) -> Seq<char>
    decreases n,
{
    if n == 0 {
        Seq::empty()
    } else {
        hv_field_pushes(fs, (n - 1) as nat) + " self."@ + fs[n - 1].name@ + ".push(state."@
            + fs[n - 1].name@ + ");"@
    }
}

/// The whole generated history container: a struct of one `Vec` column per
/// state field, with a constructor, a `push` that appends one snapshot
/// column-wise, a length read off the first column, an emptiness test and
/// a `clear`.
pub open spec fn history_vec_src(d: StructDef) -> Seq<char> {
    "pub struct "@ + d.name@ + "HistoryVec {"@ + hv_field_decls(d.fields@, d.fields@.len())
        + " } impl "@ + d.name@ + "HistoryVec { pub fn new() -> Self { Self {"@
        + field_calls(d.fields@, d.fields@.len(), " "@, ": Vec::new(),"@)
        + " } } pub fn push(&mut self, state: "@ + d.name@ + ") {"@ + hv_field_pushes(
        d.fields@,
        d.fields@.len(),
    ) + " } pub fn len(&self) -> usize { "@ + (if d.fields@.len() == 0 {
        "0"@
    } else {
        "self."@ + d.fields@[0].name@ + ".len()"@
    }) + " } pub fn is_empty(&self) -> bool { self.len() == 0 } pub fn clear(&mut self) {"@
        + field_calls(d.fields@, d.fields@.len(), " self."@, ".clear();"@) + " } }"@
}

fn gen_history_vec(d: &StructDef) -> (r: String)
    ensures
        r@ == history_vec_src(*d),
{
    let mut out = String::new();
    out.append("pub struct ");
    out.append(d.name.as_str());
    out.append("HistoryVec {");
    let mut j: usize = 0;
    while j < d.fields.len()
        invariant
            j <= d.fields@.len(),
            out@ =~= "pub struct "@ + d.name@ + "HistoryVec {"@ + hv_field_decls(
                d.fields@,
                j as nat,
            ),
        decreases d.fields@.len() - j,
    {
        out.append(" pub ");
        out.append(d.fields[j].name.as_str());
        out.append(": Vec<");
        out.append(d.fields[j].ty.as_str());
        out.append(">,");
        j = j + 1;
    }
    out.append(" } impl ");
    out.append(d.name.as_str());
    out.append("HistoryVec { pub fn new() -> Self { Self {");
    emit_fields(&mut out, &d.fields, " ", ": Vec::new(),");
    out.append(" } } pub fn push(&mut self, state: ");
    out.append(d.name.as_str());
    out.append(") {");
    let ghost mid2 = out@;
    let mut j3: usize = 0;
    while j3 < d.fields.len()
        invariant
            j3 <= d.fields@.len(),
            out@ =~= mid2 + hv_field_pushes(d.fields@, j3 as nat),
        decreases d.fields@.len() - j3,
    {
        out.append(" self.");
        out.append(d.fields[j3].name.as_str());
        out.append(".push(state.");
        out.append(d.fields[j3].name.as_str());
        out.append(");");
        j3 = j3 + 1;
    }
    out.append(" } pub fn len(&self) -> usize { ");
    if d.fields.len() == 0 {
        out.append("0");
    } else {
        out.append("self.");
        out.append(d.fields[0].name.as_str());
        out.append(".len()");
    }
    out.append(" } pub fn is_empty(&self) -> bool { self.len() == 0 } pub fn clear(&mut self) {");
    emit_fields(&mut out, &d.fields, " self.", ".clear();");
    out.append(" } }");
    proof {
        assert(out@ =~= history_vec_src(*d));
    }
    out
}

/// Generates the history container for a state struct, from the text of
/// its definition: one `Vec` column per field, a constructor and a
/// column-wise `push`.  `None` exactly when the text does not parse as a
/// struct definition.
pub fn history_vec_derive(item: &str) -> (r: Option<String>)
    ensures
        match parsed_struct(item@) {
            Some(d) => r is Some && r->0@ == history_vec_src(d),
            None => r is None,
        },
{
    match parse_struct(item) {
        Some(d) => Some(gen_history_vec(&d)),
        None => None,
    }
}

/// Whether any field is named `state`: then the struct has its own
/// snapshot to push.
pub open spec fn has_state_field(fs: Seq<FieldDef>, n: nat) -> bool
    decreases n,
{
    if n == 0 {
        false
    } else {
        has_state_field(fs, (n - 1) as nat) || fs[n - 1].name@ == "state"@
    }
}

/// The snapshot propagation calls: one per field marked with either
/// state-marker attribute, over the first `n` fields.
pub open spec fn save_state_calls(fs: Seq<FieldDef>, n: nat) -> Seq<char>
    decreases n,
{
    if n == 0 {
        Seq::empty()
    } else {
        save_state_calls(fs, (n - 1) as nat) + (if fs[n - 1].use_state || fs[n - 1].save_state {
            " self."@ + fs[n - 1].name@ + ".save_state();"@
        } else {
            Seq::<char>::empty()
        })
    }
}

/// The generated `save_state` method: push the struct's own snapshot when
/// it has a `state` field, then propagate to every marked field.
pub open spec fn history_methods_src(d: StructDef) -> Seq<char> {
    "impl "@ + d.name@ + " { pub fn save_state(&mut self) {"@ + (if has_state_field(
        d.fields@,
        d.fields@.len(),
    ) {
        " self.history.push(self.state);"@
    } else {
        Seq::<char>::empty()
    }) + save_state_calls(d.fields@, d.fields@.len()) + " } }"@
}

/// Whether any of the first `n` fields carries a state-marker attribute.
pub open spec fn any_marked_field(fs: Seq<FieldDef>, n: nat) -> bool
    decreases n,
{
    if n == 0 {
        false
    } else {
        any_marked_field(fs, (n - 1) as nat) || fs[n - 1].use_state || fs[n - 1].save_state
    }
}

/// Whether the snapshot method applies: the struct has a `state` field or
/// at least one field carries a state-marker attribute.
pub open spec fn history_methods_applies(d: StructDef) -> bool {
    has_state_field(d.fields@, d.fields@.len()) || any_marked_field(d.fields@, d.fields@.len())
}

fn gen_history_methods(d: &StructDef) -> (r: Option<String>)
    ensures
        match r {
            Some(s) => history_methods_applies(*d) && s@ == history_methods_src(*d),
            None => !history_methods_applies(*d),
        },
{
    let mut has_state = false;
    let mut any_marked = false;
    let mut j: usize = 0;
    while j < d.fields.len()
        invariant
            j <= d.fields@.len(),
            has_state == has_state_field(d.fields@, j as nat),
            any_marked == any_marked_field(d.fields@, j as nat),
        decreases d.fields@.len() - j,
    {
        let state_lit = String::from_str("state");
        let is_state = d.fields[j].name.eq(&state_lit);
        has_state = has_state || is_state;
        let marked_here = d.fields[j].use_state || d.fields[j].save_state;
        any_marked = any_marked || marked_here;
        j = j + 1;
    }
    if !has_state && !any_marked {
        return None;
    }
    let mut out = String::new();
    out.append("impl ");
    out.append(d.name.as_str());
    out.append(" { pub fn save_state(&mut self) {");
    if has_state {
        out.append(" self.history.push(self.state);");
    }
    let ghost mid = out@;
    let mut k: usize = 0;
    while k < d.fields.len()
        invariant
            k <= d.fields@.len(),
            out@ =~= mid + save_state_calls(d.fields@, k as nat),
        decreases d.fields@.len() - k,
    {
        if d.fields[k].use_state || d.fields[k].save_state {
            out.append(" self.");
            out.append(d.fields[k].name.as_str());
            out.append(".save_state();");
        }
        k = k + 1;
    }
    out.append(" } }");
    proof {
        assert(out@ =~= history_methods_src(*d));
    }
    Some(out)
}

/// Generates the snapshot method for a struct, from the text of its
/// definition: `save_state` pushes the struct's own `state` to its
/// `history` when present, and propagates to every field marked with a
/// state-marker attribute.  `None` exactly when the text does not parse as
/// a struct definition or nothing in the struct carries history.
pub fn history_methods_derive(item: &str) -> (r: Option<String>)
    ensures
        match parsed_struct(item@) {
            Some(d) => {
                &&& r is Some <==> history_methods_applies(d)
                &&& r is Some ==> r->0@ == history_methods_src(d)
            },
            None => r is None,
        },
{
    match parse_struct(item) {
        Some(d) => gen_history_methods(&d),
        None => None,
    }
}

/// The bare-copy assignments for fields copied with `bare_clone`: those
/// marked with a state-marker attribute.
pub open spec fn bc_bare_assigns(fs: Seq<FieldDef>, n: nat) -> Seq<char>
    decreases n,
{
    if n == 0 {
        Seq::empty()
    } else {
        bc_bare_assigns(fs, (n - 1) as nat) + (if fs[n - 1].use_state || fs[n - 1].save_state {
            " new."@ + fs[n - 1].name@ + " = self."@ + fs[n - 1].name@ + ".bare_clone();"@
        } else {
            Seq::<char>::empty()
        })
    }
}

/// The plain-copy assignments: every field that is neither marked nor the
/// `history` field.
pub open spec fn bc_clone_assigns(fs: Seq<FieldDef>, n: nat) -> Seq<char>
    decreases n,
{
    if n == 0 {
        Seq::empty()
    } else {
        bc_clone_assigns(fs, (n - 1) as nat) + (if !(fs[n - 1].use_state || fs[n
            - 1].save_state) && fs[n - 1].name@ != "history"@ {
            " new."@ + fs[n - 1].name@ + " = self."@ + fs[n - 1].name@ + ".clone();"@
        } else {
            Seq::<char>::empty()
        })
    }
}

/// The generated bare-copy method: marked fields propagate `bare_clone`,
/// the rest are cloned, and the `history` field is left at its default.
pub open spec fn bare_clone_src(d: StructDef) -> Seq<char> {
    "impl BareClone for "@ + d.name@
        + " { fn bare_clone(&self) -> Self { let mut new = Self::default();"@
        + bc_bare_assigns(d.fields@, d.fields@.len()) + bc_clone_assigns(
        d.fields@,
        d.fields@.len(),
    ) + " new } }"@
}

fn gen_bare_clone(d: &StructDef) -> (r: String)
    ensures
        r@ == bare_clone_src(*d),
{
    let mut out = String::new();
    out.append("impl BareClone for ");
    out.append(d.name.as_str());
    out.append(" { fn bare_clone(&self) -> Self { let mut new = Self::default();");
    let ghost mid = out@;
    let mut j: usize = 0;
    while j < d.fields.len()
        invariant
            j <= d.fields@.len(),
            out@ =~= mid + bc_bare_assigns(d.fields@, j as nat),
        decreases d.fields@.len() - j,
    {
        if d.fields[j].use_state || d.fields[j].save_state {
            out.append(" new.");
            out.append(d.fields[j].name.as_str());
            out.append(" = self.");
            out.append(d.fields[j].name.as_str());
            out.append(".bare_clone();");
        }
        j = j + 1;
    }
    let ghost mid2 = out@;
    let mut k: usize = 0;
    while k < d.fields.len()
        invariant
            k <= d.fields@.len(),
            out@ =~= mid2 + bc_clone_assigns(d.fields@, k as nat),
        decreases d.fields@.len() - k,
    {
        let marked = d.fields[k].use_state || d.fields[k].save_state;
        let history_lit = String::from_str("history");
        let is_history = d.fields[k].name.eq(&history_lit);
        if !marked && !is_history {
            out.append(" new.");
            out.append(d.fields[k].name.as_str());
            out.append(" = self.");
            out.append(d.fields[k].name.as_str());
            out.append(".clone();");
        }
        k = k + 1;
    }
    out.append(" new } }");
    proof {
        assert(out@ =~= bare_clone_src(*d));
    }
    out
}

/// Generates the bare-copy method for a struct, from the text of its
/// definition: fields marked with a state-marker attribute propagate
/// `bare_clone`, the `history` field stays at its default, everything else
/// is cloned.  `None` exactly when the text does not parse as a struct
/// definition.
pub fn bare_clone(item: &str) -> (r: Option<String>)
    ensures
        match parsed_struct(item@) {
            Some(d) => r is Some && r->0@ == bare_clone_src(d),
            None => r is None,
        },
{
    match parse_struct(item) {
        Some(d) => Some(gen_bare_clone(&d)),
        None => None,
    }
}

/// The generated solver plumbing for a struct: the item itself followed by
/// an impl holding the user's derivative routine and, over the marked
/// fields, readers and writers for states and derivatives, the element-wise
/// and slope-times-dt steppers, the storage reader, the derivative reset
/// and the clock stepper.
pub open spec fn solver_src(item: Seq<char>, attr: Seq<char>, d: StructDef) -> Seq<char> {
    let fs = d.fields@;
    let n = fs.len();
    item + " impl "@ + d.name@ + " {"@ + " "@ + attr
        + " pub fn states(&self) -> Vec<Scalar> { let mut states = Vec::new();"@
        + marked_calls(fs, n, " states.push(self."@, ".state());"@)
        + " states } pub fn set_states(&mut self, val: Vec<Scalar>) { let mut iter = val.iter();"@
        + marked_calls(fs, n, " self."@, ".set_state(iter.next().unwrap().clone());"@)
        + " } pub fn step_states_by_dt(&mut self, dt: &Scalar) {"@
        + marked_calls(fs, n, " self."@, ".step_state_by_dt(dt);"@)
        + " self.step_time(dt); } pub fn step_states(&mut self, val: Vec<Scalar>) { let mut iter = val.iter();"@
        + marked_calls(fs, n, " self."@, ".step_state(iter.next().unwrap().clone());"@)
        + " } pub fn derivs(&self) -> Vec<Scalar> { let mut derivs = Vec::new();"@
        + marked_calls(fs, n, " derivs.push(self."@, ".deriv());"@)
        + " derivs } pub fn set_derivs(&mut self, val: &Vec<Scalar>) { let mut iter = val.iter();"@
        + marked_calls(fs, n, " self."@, ".set_deriv(iter.next().unwrap().clone());"@)
        + " } pub fn storages(&self) -> Vec<Scalar> { let mut storages = Vec::new();"@
        + marked_calls(fs, n, " storages.push(self."@, ".storage());"@)
        + " storages } pub fn reset_derivs(&mut self) { let zero = Scalar::ratio(0, 1);"@
        + marked_calls(fs, n, " self."@, ".set_deriv(zero);"@)
        + " } pub fn step_time(&mut self, dt: &Scalar) { self.state.time = self.state.time.add(*dt); } }"@
}

/// Whether the attribute body of the solver generator is acceptable: it
/// must hold exactly one function definition, named `update_derivs`.
pub open spec fn solver_attr_ok(names: Vec<String>) -> bool {
    names@.len() == 1 && names@[0]@ == "update_derivs"@
}

/// Generates the solver plumbing for a struct: the struct definition
/// followed by an impl carrying the caller's `update_derivs` routine and
/// the marked-field plumbing it needs.  `None` exactly when the attribute
/// body is anything but a single `update_derivs` definition or the item
/// does not parse as a struct definition.
pub fn solver(attr: &str, item: &str) -> (r: Option<String>)
    ensures
        match (parsed_fn_names(attr@), parsed_struct(item@)) {
            (Some(names), Some(d)) => {
                &&& r is Some <==> solver_attr_ok(names)
                &&& r is Some ==> r->0@ == solver_src(item@, attr@, d)
            },
            _ => r is None,
        },
{
    let names = match parse_fn_names(attr) {
        Some(n) => n,
        None => {
            return None;
        },
    };
    let d = match parse_struct(item) {
        Some(d) => d,
        None => {
            return None;
        },
    };
    let expected = String::from_str("update_derivs");
    if !(names.len() == 1 && names[0].eq(&expected)) {
        return None;
    }
    let mut out = String::new();
    out.append(item);
    out.append(" impl ");
    out.append(d.name.as_str());
    out.append(" {");
    out.append(" ");
    out.append(attr);
    out.append(" pub fn states(&self) -> Vec<Scalar> { let mut states = Vec::new();");
    emit_marked(&mut out, &d.fields, " states.push(self.", ".state());");
    out.append(" states } pub fn set_states(&mut self, val: Vec<Scalar>) { let mut iter = val.iter();");
    emit_marked(&mut out, &d.fields, " self.", ".set_state(iter.next().unwrap().clone());");
    out.append(" } pub fn step_states_by_dt(&mut self, dt: &Scalar) {");
    emit_marked(&mut out, &d.fields, " self.", ".step_state_by_dt(dt);");
    out.append(" self.step_time(dt); } pub fn step_states(&mut self, val: Vec<Scalar>) { let mut iter = val.iter();");
    emit_marked(&mut out, &d.fields, " self.", ".step_state(iter.next().unwrap().clone());");
    out.append(" } pub fn derivs(&self) -> Vec<Scalar> { let mut derivs = Vec::new();");
    emit_marked(&mut out, &d.fields, " derivs.push(self.", ".deriv());");
    out.append(" derivs } pub fn set_derivs(&mut self, val: &Vec<Scalar>) { let mut iter = val.iter();");
    emit_marked(&mut out, &d.fields, " self.", ".set_deriv(iter.next().unwrap().clone());");
    out.append(" } pub fn storages(&self) -> Vec<Scalar> { let mut storages = Vec::new();");
    emit_marked(&mut out, &d.fields, " storages.push(self.", ".storage());");
    out.append(" storages } pub fn reset_derivs(&mut self) { let zero = Scalar::ratio(0, 1);");
    emit_marked(&mut out, &d.fields, " self.", ".set_deriv(zero);");
    out.append(" } pub fn step_time(&mut self, dt: &Scalar) { self.state.time = self.state.time.add(*dt); } }");
    proof {
        assert(out@ =~= solver_src(item@, attr@, d));
    }
    Some(out)
}

/// The commonly used derive list, prefixed to an item's text.
pub open spec fn common_derives_src(item: Seq<char>) -> Seq<char> {
    "#[derive(Debug, Default, Clone, PartialEq, PartialOrd, Serialize, Deserialize)] "@ + item
}

/// Prefixes the commonly used derive list to an item's text.
pub fn common_derives(item: &str) -> (r: String)
    ensures
        r@ == common_derives_src(item@),
{
    let mut out = String::new();
    out.append("#[derive(Debug, Default, Clone, PartialEq, PartialOrd, Serialize, Deserialize)] ");
    out.append(item);
    out
}

/// The registration stub for getter-suppression attributes: it generates
/// nothing.
pub fn pyo3_api_cleanup(_item: &str) -> (r: String)
    ensures
        r@ == Seq::<char>::empty(),
{
    String::new()
}

/// Whether a field's type text names a `Vec`: its first word is exactly
/// `Vec` -- either the text is `Vec` alone, or a space follows, as the
/// token-text printing puts one between an identifier and `<` or `::`.
/// `VecDeque < T >` and `Vector3` are not a `Vec`.
pub open spec fn is_vec_spec(f: FieldDef) -> bool {
    &&& f.ty@.len() >= 3
    &&& f.ty@[0] == 'V'
    &&& f.ty@[1] == 'e'
    &&& f.ty@[2] == 'c'
    &&& (f.ty@.len() == 3 || f.ty@[3] == ' ')
}

/// Checks whether a field's type text names a `Vec`.
pub fn is_vec(f: &FieldDef) -> (r: bool)
    ensures
        r == is_vec_spec(*f),
{
    let s = f.ty.as_str();
    let n = s.unicode_len();
    if n >= 3 {
        s.get_char(0) == 'V' && s.get_char(1) == 'e' && s.get_char(2) == 'c' && (n == 3
            || s.get_char(3) == ' ')
    } else {
        false
    }
}


/// The generated time walker: readers for states and derivatives, the
/// element-wise stepper and the derivative reset over the marked fields,
/// a `walk` loop that snapshots the initial state and then calls
/// `solve_step` until the end time, and the `solve_step` that runs the
/// selected fixed step, advances the clock and snapshots.
pub open spec fn walk_src(d: StructDef) -> Seq<char> {
    let fs = d.fields@;
    let n = fs.len();
    "impl "@ + d.name@ + " { pub fn get_states(&self) -> Vec<Scalar> { let mut states = Vec::new();"@
        + marked_calls(fs, n, " states.push(self."@, ".state());"@)
        + " states } pub fn get_derivs(&self) -> Vec<Scalar> { let mut derivs = Vec::new();"@
        + marked_calls(fs, n, " derivs.push(self."@, ".deriv());"@)
        + " derivs } pub fn step_states(&mut self, dt: &Scalar) {"@
        + marked_calls(fs, n, " self."@, ".step_state(dt);"@)
        + " } pub fn reset_derivs(&mut self) { let zero = Scalar::ratio(0, 1);"@
        + marked_calls(fs, n, " self."@, ".set_deriv(zero);"@)
        + " } pub fn walk(&mut self, end_time: Scalar) { self.save_state(); while self.state.time.lt(end_time) { self.solve_step(); } }"@
        + " pub fn solve_step(&mut self) { match self.solver_opts { SolverOptions::FixedEuler { dt } => { self.step(&dt); self.state.time = self.state.time.add(dt); } } self.save_state(); } }"@
}

/// Generates the time walker for a struct, from the text of its
/// definition: a state reader over the marked fields and a loop calling
/// `solve_step` until the end time.  `None` exactly when the text does not
/// parse as a struct definition.
pub fn walk_derive(item: &str) -> (r: Option<String>)
    ensures
        match parsed_struct(item@) {
            Some(d) => r is Some && r->0@ == walk_src(d),
            None => r is None,
        },
{
    let d = match parse_struct(item) {
        Some(d) => d,
        None => {
            return None;
        },
    };
    let mut out = String::new();
    out.append("impl ");
    out.append(d.name.as_str());
    out.append(" { pub fn get_states(&self) -> Vec<Scalar> { let mut states = Vec::new();");
    emit_marked(&mut out, &d.fields, " states.push(self.", ".state());");
    out.append(" states } pub fn get_derivs(&self) -> Vec<Scalar> { let mut derivs = Vec::new();");
    emit_marked(&mut out, &d.fields, " derivs.push(self.", ".deriv());");
    out.append(" derivs } pub fn step_states(&mut self, dt: &Scalar) {");
    emit_marked(&mut out, &d.fields, " self.", ".step_state(dt);");
    out.append(" } pub fn reset_derivs(&mut self) { let zero = Scalar::ratio(0, 1);");
    emit_marked(&mut out, &d.fields, " self.", ".set_deriv(zero);");
    out.append(
        " } pub fn walk(&mut self, end_time: Scalar) { self.save_state(); while self.state.time.lt(end_time) { self.solve_step(); } }",
    );
    out.append(
        " pub fn solve_step(&mut self) { match self.solver_opts { SolverOptions::FixedEuler { dt } => { self.step(&dt); self.state.time = self.state.time.add(dt); } } self.save_state(); } }",
    );
    proof {
        assert(out@ =~= walk_src(d));
    }
    Some(out)
}

/// The generated state-value reader.
pub open spec fn get_state_vals_src(d: StructDef) -> Seq<char> {
    "impl "@ + d.name@ + " { pub fn get_state_vals(&self) -> Vec<Scalar> { let mut states = Vec::new();"@
        + marked_calls(d.fields@, d.fields@.len(), " states.push(self."@, ".state());"@)
        + " states } }"@
}

/// Generates the state-value reader for a struct, from the text of its
/// definition: it collects the state value of every marked field in
/// declaration order.  `None` exactly when the text does not parse as a
/// struct definition.
pub fn get_state_vals_derive(item: &str) -> (r: Option<String>)
    ensures
        match parsed_struct(item@) {
            Some(d) => r is Some && r->0@ == get_state_vals_src(d),
            None => r is None,
        },
{
    let d = match parse_struct(item) {
        Some(d) => d,
        None => {
            return None;
        },
    };
    let mut out = String::new();
    out.append("impl ");
    out.append(d.name.as_str());
    out.append(" { pub fn get_state_vals(&self) -> Vec<Scalar> { let mut states = Vec::new();");
    emit_marked(&mut out, &d.fields, " states.push(self.", ".state());");
    out.append(" states } }");
    proof {
        assert(out@ =~= get_state_vals_src(d));
    }
    Some(out)
}

/// Whether any of the first `n` names is one the binding generator
/// refuses: `default` and `default_py` are reserved for the generated
/// constructor.
pub open spec fn any_forbidden_name(names: Seq<String>, n: nat) -> bool
    decreases n,
{
    if n == 0 {
        false
    } else {
        any_forbidden_name(names, (n - 1) as nat) || names[n - 1]@ == "default"@ || names[n
            - 1]@ == "default_py"@
    }
}

/// The per-field getters of the generated binding surface: one for every
/// field not marked to skip it.
pub open spec fn getter_defs(fs: Seq<FieldDef>, n: nat) -> Seq<char>
    decreases n,
{
    if n == 0 {
        Seq::empty()
    } else {
        getter_defs(fs, (n - 1) as nat) + (if !fs[n - 1].skip_get {
            " pub fn get_"@ + fs[n - 1].name@ + "(&self) -> "@ + fs[n - 1].ty@ + " { self."@
                + fs[n - 1].name@ + ".clone() }"@
        } else {
            Seq::<char>::empty()
        })
    }
}

/// The generated binding surface: the item itself followed by an impl
/// holding the caller's extra functions, a getter per unskipped field and
/// a `default` constructor alias.
pub open spec fn pyo3_api_src(attr: Seq<char>, item: Seq<char>, d: StructDef) -> Seq<char> {
    item + " impl "@ + d.name@ + " {"@ + " "@ + attr + getter_defs(d.fields@, d.fields@.len())
        + " pub fn default_py() -> Self { Self::default() } }"@
}

/// Generates the binding surface for a struct: the struct definition
/// followed by an impl carrying the caller's extra functions, one getter
/// per field not marked to skip it, and a constructor alias.  `None`
/// exactly when the attribute body is not a list of function definitions,
/// one of them bears a reserved name, or the item does not parse as a
/// struct definition.
pub fn pyo3_api(attr: &str, item: &str) -> (r: Option<String>)
    ensures
        match (parsed_fn_names(attr@), parsed_struct(item@)) {
            (Some(names), Some(d)) => {
                &&& r is Some <==> !any_forbidden_name(names@, names@.len())
                &&& r is Some ==> r->0@ == pyo3_api_src(attr@, item@, d)
            },
            _ => r is None,
        },
{
    let names = match parse_fn_names(attr) {
        Some(n) => n,
        None => {
            return None;
        },
    };
    let d = match parse_struct(item) {
        Some(d) => d,
        None => {
            return None;
        },
    };
    let fb1 = String::from_str("default");
    let fb2 = String::from_str("default_py");
    let mut any_fb = false;
    let mut i: usize = 0;
    while i < names.len()
        invariant
            i <= names@.len(),
            fb1@ == "default"@,
            fb2@ == "default_py"@,
            any_fb == any_forbidden_name(names@, i as nat),
        decreases names@.len() - i,
    {
        let hit = names[i].eq(&fb1) || names[i].eq(&fb2);
        any_fb = any_fb || hit;
        i = i + 1;
    }
    if any_fb {
        return None;
    }
    let mut out = String::new();
    out.append(item);
    out.append(" impl ");
    out.append(d.name.as_str());
    out.append(" {");
    out.append(" ");
    out.append(attr);
    let ghost mid = out@;
    let mut j: usize = 0;
    while j < d.fields.len()
        invariant
            j <= d.fields@.len(),
            out@ =~= mid + getter_defs(d.fields@, j as nat),
        decreases d.fields@.len() - j,
    {
        if !d.fields[j].skip_get {
            out.append(" pub fn get_");
            out.append(d.fields[j].name.as_str());
            out.append("(&self) -> ");
            out.append(d.fields[j].ty.as_str());
            out.append(" { self.");
            out.append(d.fields[j].name.as_str());
            out.append(".clone() }");
        }
        j = j + 1;
    }
    out.append(" pub fn default_py() -> Self { Self::default() } }");
    proof {
        assert(out@ =~= pyo3_api_src(attr@, item@, d));
    }
    Some(out)
}

} // verus!
