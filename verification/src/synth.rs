//! Code synthesis: from the ordered field descriptors of one record, emit
//! the builder's storage layout and its method set — one setter per field,
//! one accumulator per field that requested one, merged by method name with
//! the later definition winning — together with the names of the target and
//! builder types.  The finalizer and the zero-argument constructor are fully
//! determined by the storage layout (kinds in declaration order); the
//! [`crate::state`] module states their behaviour.

use crate::field::Field;
use crate::field::FieldTypeKind;
use vstd::prelude::*;
use vstd::string::StringExecFns;

verus! {

// ---------------------------------------------------------------------------
// The synthesized description
// ---------------------------------------------------------------------------

/// How the builder stores one field.
#[derive(Clone, Copy, PartialEq, Eq, Structural, Debug)]
pub enum StorageKind {
    /// An optional value of the element type, default empty; missing is
    /// valid.
    Optional,
    /// A growable ordered sequence of the element type, default empty.
    Repeated,
    /// An optional value of the element type, default empty; required, so
    /// the finalizer fails while it is unset.
    Scalar,
}

/// One storage slot of the builder: the field's name, its storage kind and
/// the verbatim text of the element type.
pub struct StorageField {
    pub name: String,
    pub kind: StorageKind,
    /// For `Optional` and `Repeated`, the extracted inner type; for
    /// `Scalar`, the original declared type.
    pub elem_text: String,
}

/// What a generated method does.
#[derive(Clone, Copy, PartialEq, Eq, Structural, Debug)]
pub enum MethodKind {
    /// Stores its argument into the slot: a present value for optional and
    /// scalar fields, the whole replacement sequence for repeated fields.
    Setter,
    /// Appends its single argument to a repeated slot.
    Accumulator,
}

/// One generated builder method: its name, the index of the field it works
/// on, and what it does.
pub struct Method {
    pub name: String,
    pub field: usize,
    pub kind: MethodKind,
}

/// The aggregate describing one derivation: the target type, the builder
/// type named after it, and the ordered field descriptors.
pub struct BuilderModel {
    pub target_name: String,
    /// Always the target name followed by the fixed suffix `Builder`.
    pub builder_name: String,
    pub fields: Vec<Field>,
}

/// The synthesized companion-type description handed back to the host
/// pipeline: storage in field-declaration order and the merged method set.
pub struct GeneratedCode {
    pub target_name: String,
    pub builder_name: String,
    pub storage: Vec<StorageField>,
    pub methods: Vec<Method>,
}

// ---------------------------------------------------------------------------
// Specification of the synthesis
// ---------------------------------------------------------------------------

/// The storage slot `s` is what synthesis emits for the descriptor `d`.
pub open spec fn storage_matches(d: Field, s: StorageField) -> bool {
    &&& s.name == d.ident
    &&& (match d.ty {
        FieldTypeKind::OptionWrapped(t) => s.kind == StorageKind::Optional && s.elem_text == t.text,
        FieldTypeKind::VecWrapped(t) => s.kind == StorageKind::Repeated && s.elem_text == t.text,
        FieldTypeKind::Raw(t) => s.kind == StorageKind::Scalar && s.elem_text == t.text,
    })
}

/// The plain setters, one per field in declaration order, each named after
/// its field.
pub open spec fn setter_chain(fields: Seq<Field>) -> Seq<Method>
    decreases fields.len(),
{
    if fields.len() == 0 {
        Seq::empty()
    } else {
        setter_chain(fields.drop_last()).push(
            Method {
                name: fields.last().ident,
                field: (fields.len() - 1) as usize,
                kind: MethodKind::Setter,
            },
        )
    }
}

/// The accumulator methods, one per field that carries a directive, in
/// declaration order, each named as its directive requests.
pub open spec fn acc_chain(fields: Seq<Field>) -> Seq<Method>
    decreases fields.len(),
{
    if fields.len() == 0 {
        Seq::empty()
    } else {
        let rest = acc_chain(fields.drop_last());
        match fields.last().attrs {
            Option::Some(fa) => rest.push(
                Method {
                    name: fa.each,
                    field: (fields.len() - 1) as usize,
                    kind: MethodKind::Accumulator,
                },
            ),
            Option::None => rest,
        }
    }
}

/// The first position in `ms` holding a method named `name`, or -1.
pub open spec fn find_name(ms: Seq<Method>, name: Seq<char>) -> int
    decreases ms.len(),
{
    if ms.len() == 0 {
        -1
    } else if ms[0].name@ == name {
        0
    } else {
        let r = find_name(ms.drop_first(), name);
        if r == -1 {
            -1
        } else {
            r + 1
        }
    }
}

/// The explicit merge order of the generated methods: walk the chain —
/// all plain setters first, then all accumulators, each in declaration
/// order — and keep one method per name.  A later definition replaces an
/// earlier one with the same name in place; a new name is appended.
pub open spec fn merge_methods(chain: Seq<Method>) -> Seq<Method>
    decreases chain.len(),
{
    if chain.len() == 0 {
        Seq::empty()
    } else {
        let prefix = merge_methods(chain.drop_last());
        let m = chain.last();
        let j = find_name(prefix, m.name@);
        if j >= 0 {
            prefix.update(j, m)
        } else {
            prefix.push(m)
        }
    }
}

// ---------------------------------------------------------------------------
// Facts about find_name
// ---------------------------------------------------------------------------

proof fn lemma_find_name_none(ms: Seq<Method>, name: Seq<char>)
    requires
        forall|k: int| 0 <= k < ms.len() ==> (#[trigger] ms[k].name@) != name,
    ensures
        find_name(ms, name) == -1,
    decreases ms.len(),
{
    if ms.len() > 0 {
        assert(forall|k: int|
            0 <= k < ms.drop_first().len() ==> (#[trigger] ms.drop_first()[k].name@) == ms[k
                + 1].name@);
        lemma_find_name_none(ms.drop_first(), name);
    }
}

proof fn lemma_find_name_is(ms: Seq<Method>, name: Seq<char>, j: int)
    requires
        0 <= j < ms.len(),
        ms[j].name@ == name,
        forall|k: int| 0 <= k < j ==> (#[trigger] ms[k].name@) != name,
    ensures
        find_name(ms, name) == j,
    decreases ms.len(),
{
    if j > 0 {
        assert(forall|k: int|
            0 <= k < ms.drop_first().len() ==> (#[trigger] ms.drop_first()[k].name@) == ms[k
                + 1].name@);
        lemma_find_name_is(ms.drop_first(), name, j - 1);
    }
}

proof fn lemma_find_name_char(ms: Seq<Method>, name: Seq<char>)
    ensures
        find_name(ms, name) == -1 || 0 <= find_name(ms, name) < ms.len(),
        find_name(ms, name) >= 0 ==> ms[find_name(ms, name)].name@ == name,
        find_name(ms, name) == -1 ==> (forall|k: int|
            0 <= k < ms.len() ==> (#[trigger] ms[k].name@) != name),
    decreases ms.len(),
{
    if ms.len() > 0 && ms[0].name@ != name {
        lemma_find_name_char(ms.drop_first(), name);
        let r = find_name(ms.drop_first(), name);
        if r == -1 {
            assert forall|k: int| 0 <= k < ms.len() implies (#[trigger] ms[k].name@) != name by {
                if k > 0 {
                    assert(ms.drop_first()[k - 1] == ms[k]);
                    assert(ms.drop_first()[k - 1].name@ != name);
                }
            }
        } else {
            assert(ms.drop_first()[r] == ms[r + 1]);
        }
    }
}

/// No two methods of a merged list share a name.
pub open spec fn method_names_unique(ms: Seq<Method>) -> bool {
    forall|p: int, q: int|
        0 <= p < q < ms.len() ==> (#[trigger] ms[p].name@) != (#[trigger] ms[q].name@)
}

/// Law (collision policy): deduplication is genuine — the merged method
/// list defines each method name exactly once.
pub proof fn lemma_merge_names_unique(chain: Seq<Method>)
    ensures
        method_names_unique(merge_methods(chain)),
    decreases chain.len(),
{
    if chain.len() > 0 {
        lemma_merge_names_unique(chain.drop_last());
        let prefix = merge_methods(chain.drop_last());
        let m = chain.last();
        let j = find_name(prefix, m.name@);
        lemma_find_name_char(prefix, m.name@);
        let merged = merge_methods(chain);
        if j >= 0 {
            assert forall|p: int, q: int| 0 <= p < q < merged.len() implies (
            #[trigger] merged[p].name@) != (#[trigger] merged[q].name@) by {
                assert(merged[p].name@ == prefix[p].name@);
                assert(merged[q].name@ == prefix[q].name@);
                assert(prefix[p].name@ != prefix[q].name@);
            }
        } else {
            assert forall|p: int, q: int| 0 <= p < q < merged.len() implies (
            #[trigger] merged[p].name@) != (#[trigger] merged[q].name@) by {
                assert(merged[p] == prefix[p]);
                if q < prefix.len() {
                    assert(merged[q] == prefix[q]);
                    assert(prefix[p].name@ != prefix[q].name@);
                } else {
                    assert(merged[q] == m);
                    assert(prefix[p].name@ != m.name@);
                }
            }
        }
    }
}

/// Law (collision policy): for each method name, the definition that
/// survives the merge is the *last* one in the chain bearing that name.
/// Accumulators stand after all plain setters in the chain, so an
/// accumulator whose requested name collides with a setter's — its own
/// field's in particular — replaces that setter.
pub proof fn lemma_merge_keeps_last(chain: Seq<Method>, j: int)
    requires
        0 <= j < chain.len(),
        forall|k: int| j < k < chain.len() ==> (#[trigger] chain[k].name@) != chain[j].name@,
    ensures
        exists|p: int|
            0 <= p < merge_methods(chain).len() && (#[trigger] merge_methods(chain)[p]) == chain[j],
    decreases chain.len(),
{
    let prefix = merge_methods(chain.drop_last());
    let m = chain.last();
    let f = find_name(prefix, m.name@);
    lemma_find_name_char(prefix, m.name@);
    if j == chain.len() - 1 {
        if f >= 0 {
            assert(merge_methods(chain)[f] == chain[j]);
        } else {
            assert(merge_methods(chain)[prefix.len() as int] == chain[j]);
        }
    } else {
        assert(chain.drop_last()[j] == chain[j]);
        lemma_merge_keeps_last(chain.drop_last(), j);
        let p = choose|p: int| 0 <= p < prefix.len() && (#[trigger] prefix[p]) == chain[j];
        assert(chain[chain.len() - 1].name@ != chain[j].name@);
        if f >= 0 {
            assert(prefix[f].name@ == m.name@);
            assert(f != p);
            assert(merge_methods(chain)[p] == chain[j]);
        } else {
            assert(merge_methods(chain)[p] == chain[j]);
        }
    }
}

// ---------------------------------------------------------------------------
// Executable synthesis
// ---------------------------------------------------------------------------

impl BuilderModel {
    /// Assemble the model for one derivation; the builder type is named
    /// deterministically after the target type with the fixed suffix.
    pub fn new(target_name: String, fields: Vec<Field>) -> (m: BuilderModel)
        ensures
            m.target_name == target_name,
            m.fields == fields,
            m.builder_name@ == target_name@ + "Builder"@,
    {
        let builder_name = target_name.clone().concat("Builder");
        BuilderModel { target_name, builder_name, fields }
    }
}

/// Install `m` into the method list under construction: replace the first
/// method with the same name in place, or append.
fn push_method(out: &mut Vec<Method>, m: Method)
    ensures
        final(out)@ == (if find_name(old(out)@, m.name@) >= 0 {
            old(out)@.update(find_name(old(out)@, m.name@), m)
        } else {
            old(out)@.push(m)
        }),
{
    let n = out.len();
    let mut j: usize = 0;
    while j < n
        invariant
            0 <= j <= n,
            n == out@.len(),
            out == old(out),
            forall|k: int| 0 <= k < j ==> (#[trigger] out@[k].name@) != m.name@,
        decreases n - j,
    {
        if out[j].name == m.name {
            proof {
                lemma_find_name_is(out@, m.name@, j as int);
            }
            out[j] = m;
            return ;
        }
        j += 1;
    }
    proof {
        lemma_find_name_none(out@, m.name@);
    }
    out.push(m);
}

/// Synthesize the builder description for `model`: the storage layout in
/// field order and the merged method set — the chain of all plain setters
/// followed by all accumulators, deduplicated by name with the later
/// definition winning.
pub fn synthesize(model: &BuilderModel) -> (r: GeneratedCode)
    ensures
        r.target_name == model.target_name,
        r.builder_name == model.builder_name,
        r.storage@.len() == model.fields@.len(),
        forall|i: int|
            0 <= i < model.fields@.len() ==> storage_matches(
                model.fields@[i],
                #[trigger] r.storage@[i],
            ),
        r.methods@ == merge_methods(setter_chain(model.fields@) + acc_chain(model.fields@)),
{
    let n = model.fields.len();
    let mut storage: Vec<StorageField> = Vec::new();
    let mut i: usize = 0;
    while i < n
        invariant
            0 <= i <= n,
            n == model.fields@.len(),
            storage@.len() == i,
            forall|k: int|
                0 <= k < i ==> storage_matches(model.fields@[k], #[trigger] storage@[k]),
        decreases n - i,
    {
        let f = &model.fields[i];
        let kind: StorageKind;
        let elem_text: String;
        match &f.ty {
            FieldTypeKind::OptionWrapped(t) => {
                kind = StorageKind::Optional;
                elem_text = t.text.clone();
            },
            FieldTypeKind::VecWrapped(t) => {
                kind = StorageKind::Repeated;
                elem_text = t.text.clone();
            },
            FieldTypeKind::Raw(t) => {
                kind = StorageKind::Scalar;
                elem_text = t.text.clone();
            },
        }
        storage.push(StorageField { name: f.ident.clone(), kind, elem_text });
        i += 1;
    }
    let ghost fs = model.fields@;
    let mut chain: Vec<Method> = Vec::new();
    let mut i: usize = 0;
    while i < n
        invariant
            0 <= i <= n,
            n == fs.len(),
            fs == model.fields@,
            chain@ == setter_chain(fs.take(i as int)),
        decreases n - i,
    {
        let f = &model.fields[i];
        chain.push(Method { name: f.ident.clone(), field: i, kind: MethodKind::Setter });
        proof {
            assert(fs.take(i + 1).drop_last() =~= fs.take(i as int));
            assert(fs.take(i + 1).last() == fs[i as int]);
        }
        i += 1;
    }
    proof {
        assert(fs.take(n as int) =~= fs);
    }
    let mut i: usize = 0;
    while i < n
        invariant
            0 <= i <= n,
            n == fs.len(),
            fs == model.fields@,
            chain@ == setter_chain(fs) + acc_chain(fs.take(i as int)),
        decreases n - i,
    {
        let f = &model.fields[i];
        match &f.attrs {
            Option::Some(fa) => {
                chain.push(
                    Method { name: fa.each.clone(), field: i, kind: MethodKind::Accumulator },
                );
            },
            Option::None => {},
        }
        proof {
            assert(fs.take(i + 1).drop_last() =~= fs.take(i as int));
            assert(fs.take(i + 1).last() == fs[i as int]);
        }
        i += 1;
    }
    proof {
        assert(fs.take(n as int) =~= fs);
    }
    let ghost full = setter_chain(fs) + acc_chain(fs);
    let mut methods: Vec<Method> = Vec::new();
    let ghost mut done: int = 0;
    while chain.len() > 0
        invariant
            0 <= done <= full.len(),
            chain@ == full.skip(done),
            methods@ == merge_methods(full.take(done)),
        decreases chain@.len(),
    {
        let m = chain.remove(0);
        proof {
            assert(m == full[done]);
            assert(full.take(done + 1).drop_last() =~= full.take(done));
            assert(full.take(done + 1).last() == full[done]);
            assert(full.skip(done).drop_first() =~= full.skip(done + 1));
        }
        push_method(&mut methods, m);
        proof {
            done = done + 1;
        }
    }
    proof {
        assert(full.take(full.len() as int) =~= full);
    }
    GeneratedCode {
        target_name: model.target_name.clone(),
        builder_name: model.builder_name.clone(),
        storage,
        methods,
    }
}

} // verus!
