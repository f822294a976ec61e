//! The binding-set resource: validation of vertex layouts against a
//! program's declared attributes, construction of the backing binding
//! object (recorded as device commands), and explicit destruction.

use vstd::prelude::*;

use crate::BindingError;
use crate::device::{BindingTier, BufferTier, Device, DeviceCommand, bind_vao, spec_bind_vao_commands};
use crate::types::{AttributeType, PointerForm, get_num_components, pointer_form, spec_num_components, spec_pointer_form, spec_type_to_gl, vertex_binding_type_to_gl};

verus! {

/// One entry of a buffer's layout: an attribute name, its byte offset
/// inside an element, and its abstract type.
#[derive(Debug, Clone, PartialEq, Eq)]
pub struct AttributeEntry {
    pub name: String,
    pub offset: usize,
    pub ty: AttributeType,
}

/// Mathematical image of an [`AttributeEntry`].
pub ghost struct AttributeEntryV {
    pub name: Seq<char>,
    pub offset: usize,
    pub ty: AttributeType,
}

impl View for AttributeEntry {
    type V = AttributeEntryV;

    open spec fn view(&self) -> AttributeEntryV {
        AttributeEntryV { name: self.name@, offset: self.offset, ty: self.ty }
    }
}

/// One vertex buffer's contribution to a binding request: its identifier,
/// its layout, the element stride, and an optional instance step rate.
#[derive(Debug, Clone, PartialEq, Eq)]
pub struct VertexSource {
    pub buffer: u32,
    pub bindings: Vec<AttributeEntry>,
    pub stride: usize,
    pub divisor: Option<u32>,
}

/// Mathematical image of a [`VertexSource`].
pub ghost struct VertexSourceV {
    pub buffer: u32,
    pub bindings: Seq<AttributeEntryV>,
    pub stride: usize,
    pub divisor: Option<u32>,
}

/// The views of a layout's entries, in order.
pub open spec fn entries_view(s: Seq<AttributeEntry>) -> Seq<AttributeEntryV> {
    s.map_values(|e: AttributeEntry| e@)
}

impl View for VertexSource {
    type V = VertexSourceV;

    open spec fn view(&self) -> VertexSourceV {
        VertexSourceV {
            buffer: self.buffer,
            bindings: entries_view(self.bindings@),
            stride: self.stride,
            divisor: self.divisor,
        }
    }
}

/// The views of a request's sources, in order.
pub open spec fn sources_view(s: Seq<VertexSource>) -> Seq<VertexSourceV> {
    s.map_values(|v: VertexSource| v@)
}

/// What a vertex buffer collaborator exposes to the draw path: its opaque
/// identifier, its per-attribute layout, and its element stride.
#[derive(Debug, Clone, PartialEq, Eq)]
pub struct VertexBufferInfo {
    pub id: u32,
    pub bindings: Vec<AttributeEntry>,
    pub elements_size: usize,
}

/// One attribute a program declares: its name, its abstract type, its
/// declared array size, and its bound location (`-1` meaning unused).
#[derive(Debug, Clone, PartialEq, Eq)]
pub struct ProgramAttribute {
    pub name: String,
    pub ty: AttributeType,
    pub size: u32,
    pub location: i32,
}

/// Mathematical image of a [`ProgramAttribute`].
pub ghost struct ProgramAttributeV {
    pub name: Seq<char>,
    pub ty: AttributeType,
    pub size: u32,
    pub location: i32,
}

impl View for ProgramAttribute {
    type V = ProgramAttributeV;

    open spec fn view(&self) -> ProgramAttributeV {
        ProgramAttributeV { name: self.name@, ty: self.ty, size: self.size, location: self.location }
    }
}

/// What the program collaborator exposes: its opaque identity and its
/// declared attributes.
#[derive(Debug, Clone, PartialEq, Eq)]
pub struct Program {
    pub id: u64,
    pub attributes: Vec<ProgramAttribute>,
}

/// Mathematical image of a [`Program`].
pub ghost struct ProgramV {
    pub id: u64,
    pub attributes: Seq<ProgramAttributeV>,
}

impl View for Program {
    type V = ProgramV;

    open spec fn view(&self) -> ProgramV {
        ProgramV {
            id: self.id,
            attributes: self.attributes@.map_values(|a: ProgramAttribute| a@),
        }
    }
}

/// The first attribute of the given name, if the program declares one.
pub open spec fn find_attr(attrs: Seq<ProgramAttributeV>, name: Seq<char>) -> Option<ProgramAttributeV>
    decreases attrs.len(),
{
    if attrs.len() == 0 {
        None
    } else if attrs[0].name == name {
        Some(attrs[0])
    } else {
        find_attr(attrs.drop_first(), name)
    }
}

impl Program {
    /// Every location is a real slot or the unused sentinel `-1`.
    pub open spec fn wf(self) -> bool {
        forall|k: int| 0 <= k < self@.attributes.len() ==> #[trigger] self@.attributes[k].location >= -1
    }

    /// Looks up the first declared attribute of the given name.
    pub fn get_attribute(&self, name: &String) -> (r: Option<&ProgramAttribute>)
        ensures
            r is Some <==> find_attr(self@.attributes, name@) is Some,
            r matches Some(a) ==> {
                &&& find_attr(self@.attributes, name@) == Some(a@)
                &&& exists|k: int| 0 <= k < self@.attributes.len() && self@.attributes[k] == a@
            },
    {
        let mut i: usize = 0;
        proof {
            assert(self@.attributes.skip(0) =~= self@.attributes);
        }
        while i < self.attributes.len()
            invariant
                0 <= i <= self.attributes@.len(),
                find_attr(self@.attributes, name@) == find_attr(self@.attributes.skip(i as int), name@),
                forall|k: int| 0 <= k < i ==> #[trigger] self@.attributes[k].name != name@,
            decreases self.attributes@.len() - i,
        {
            if self.attributes[i].name == *name {
                proof {
                    let rest = self@.attributes.skip(i as int);
                    assert(rest[0] == self@.attributes[i as int]);
                    assert(find_attr(rest, name@) == Some(self@.attributes[i as int]));
                }
                return Some(&self.attributes[i]);
            }
            proof {
                let rest = self@.attributes.skip(i as int);
                assert(rest[0] == self@.attributes[i as int]);
                assert(rest.drop_first() =~= self@.attributes.skip(i + 1));
            }
            i += 1;
        }
        proof {
            assert(self@.attributes.skip(i as int) =~= Seq::<ProgramAttributeV>::empty());
        }
        None
    }
}

/// A layout entry collides with the program: the program declares an
/// attribute of that name whose component count differs from the entry's,
/// or whose declared array size is not one.
pub open spec fn entry_conflict(entry: AttributeEntryV, prog: ProgramV) -> bool {
    match find_attr(prog.attributes, entry.name) {
        Some(a) => spec_num_components(entry.ty) != spec_num_components(a.ty) || a.size != 1,
        None => false,
    }
}

/// Some entry of some source collides with the program.
pub open spec fn has_mismatch(sources: Seq<VertexSourceV>, prog: ProgramV) -> bool {
    exists|i: int, j: int|
        0 <= i < sources.len() && 0 <= j < sources[i].bindings.len()
            && entry_conflict(#[trigger] sources[i].bindings[j], prog)
}

/// Some source supplies an entry of the given name.
pub open spec fn sources_contain(sources: Seq<VertexSourceV>, name: Seq<char>) -> bool {
    exists|i: int, j: int|
        0 <= i < sources.len() && 0 <= j < sources[i].bindings.len()
            && (#[trigger] sources[i].bindings[j]).name == name
}

/// The program declares an attribute that no source supplies.
pub open spec fn has_missing(sources: Seq<VertexSourceV>, prog: ProgramV) -> bool {
    exists|k: int|
        0 <= k < prog.attributes.len() && !sources_contain(sources, (#[trigger] prog.attributes[k]).name)
}

/// The error names a real collision: an entry of that name exists, the
/// program's attribute of that name was found, and the reported types and
/// component counts are theirs.
pub open spec fn is_mismatch_witness(e: BindingError, sources: Seq<VertexSourceV>, prog: ProgramV) -> bool {
    match e {
        BindingError::TypeMismatch { name, expected, actual, expected_components, actual_components } => {
            exists|i: int, j: int|
                {
                    &&& 0 <= i < sources.len()
                    &&& 0 <= j < sources[i].bindings.len()
                    &&& (#[trigger] sources[i].bindings[j]).name == name@
                    &&& entry_conflict(sources[i].bindings[j], prog)
                    &&& match find_attr(prog.attributes, name@) {
                        Some(a) => {
                            &&& expected == a.ty
                            &&& actual == sources[i].bindings[j].ty
                            &&& expected_components == spec_num_components(a.ty)
                            &&& actual_components == spec_num_components(sources[i].bindings[j].ty)
                        },
                        None => false,
                    }
                }
        },
        _ => false,
    }
}

/// The error names a program attribute that really is supplied by no source.
pub open spec fn is_missing_witness(e: BindingError, sources: Seq<VertexSourceV>, prog: ProgramV) -> bool {
    match e {
        BindingError::MissingAttribute { name } => {
            exists|k: int|
                0 <= k < prog.attributes.len()
                    && (#[trigger] prog.attributes[k]).name == name@
                    && !sources_contain(sources, name@)
        },
        _ => false,
    }
}

/// Checks every layout entry that names a program attribute for component
/// and array-size compatibility; fails on the first collision, naming the
/// attribute and both types.
fn check_attribute_types(sources: &Vec<VertexSource>, program: &Program) -> (r: Result<(), BindingError>)
    ensures
        r is Ok <==> !has_mismatch(sources_view(sources@), program@),
        r matches Err(e) ==> is_mismatch_witness(e, sources_view(sources@), program@),
{
    let ghost sv = sources_view(sources@);
    let mut i: usize = 0;
    while i < sources.len()
        invariant
            0 <= i <= sources@.len(),
            sv == sources_view(sources@),
            forall|p: int, q: int|
                0 <= p < i && 0 <= q < sv[p].bindings.len() ==> !entry_conflict(#[trigger] sv[p].bindings[q], program@),
        decreases sources@.len() - i,
    {
        let source = &sources[i];
        let mut j: usize = 0;
        while j < source.bindings.len()
            invariant
                0 <= i < sources@.len(),
                0 <= j <= source.bindings@.len(),
                sv == sources_view(sources@),
                source == &sources@[i as int],
                forall|p: int, q: int|
                    0 <= p < i && 0 <= q < sv[p].bindings.len() ==> !entry_conflict(#[trigger] sv[p].bindings[q], program@),
                forall|q: int| 0 <= q < j ==> !entry_conflict(#[trigger] sv[i as int].bindings[q], program@),
            decreases source.bindings@.len() - j,
        {
            let entry = &source.bindings[j];
            proof {
                assert(sv[i as int].bindings[j as int] == entry@);
            }
            match program.get_attribute(&entry.name) {
                None => {},
                Some(attribute) => {
                    let entry_components = get_num_components(entry.ty);
                    let attr_components = get_num_components(attribute.ty);
                    if entry_components != attr_components || attribute.size != 1 {
                        let e = BindingError::TypeMismatch {
                            name: entry.name.clone(),
                            expected: attribute.ty,
                            actual: entry.ty,
                            expected_components: attr_components,
                            actual_components: entry_components,
                        };
                        proof {
                            assert(entry_conflict(sv[i as int].bindings[j as int], program@));
                            assert(is_mismatch_witness(e, sv, program@));
                            assert(has_mismatch(sv, program@));
                        }
                        return Err(e);
                    }
                },
            }
            j += 1;
        }
        i += 1;
    }
    proof {
        assert(!has_mismatch(sv, program@)) by {
            assert(forall|p: int, q: int|
                0 <= p < sv.len() && 0 <= q < sv[p].bindings.len()
                    ==> !entry_conflict(#[trigger] sv[p].bindings[q], program@));
        }
    }
    Ok(())
}

/// Does any source supply an entry of the given name?
fn sources_provide(sources: &Vec<VertexSource>, name: &String) -> (r: bool)
    ensures
        r == sources_contain(sources_view(sources@), name@),
{
    let ghost sv = sources_view(sources@);
    let mut i: usize = 0;
    while i < sources.len()
        invariant
            0 <= i <= sources@.len(),
            sv == sources_view(sources@),
            forall|p: int, q: int|
                0 <= p < i && 0 <= q < sv[p].bindings.len() ==> (#[trigger] sv[p].bindings[q]).name != name@,
        decreases sources@.len() - i,
    {
        let source = &sources[i];
        let mut j: usize = 0;
        while j < source.bindings.len()
            invariant
                0 <= i < sources@.len(),
                0 <= j <= source.bindings@.len(),
                sv == sources_view(sources@),
                source == &sources@[i as int],
                forall|p: int, q: int|
                    0 <= p < i && 0 <= q < sv[p].bindings.len() ==> (#[trigger] sv[p].bindings[q]).name != name@,
                forall|q: int| 0 <= q < j ==> (#[trigger] sv[i as int].bindings[q]).name != name@,
            decreases source.bindings@.len() - j,
        {
            if source.bindings[j].name == *name {
                proof {
                    assert(sv[i as int].bindings[j as int].name == name@);
                }
                return true;
            }
            proof {
                assert(sv[i as int].bindings[j as int] == source.bindings@[j as int]@);
            }
            j += 1;
        }
        i += 1;
    }
    false
}

/// Checks that every attribute the program declares is supplied by at least
/// one source; fails on the first missing one, naming it.
fn check_missing_attributes(sources: &Vec<VertexSource>, program: &Program) -> (r: Result<(), BindingError>)
    ensures
        r is Ok <==> !has_missing(sources_view(sources@), program@),
        r matches Err(e) ==> is_missing_witness(e, sources_view(sources@), program@),
{
    let ghost sv = sources_view(sources@);
    let mut k: usize = 0;
    while k < program.attributes.len()
        invariant
            0 <= k <= program.attributes@.len(),
            sv == sources_view(sources@),
            forall|p: int| 0 <= p < k ==> sources_contain(sv, (#[trigger] program@.attributes[p]).name),
        decreases program.attributes@.len() - k,
    {
        let attr = &program.attributes[k];
        proof {
            assert(program@.attributes[k as int] == attr@);
        }
        if !sources_provide(sources, &attr.name) {
            let e = BindingError::MissingAttribute { name: attr.name.clone() };
            proof {
                assert(is_missing_witness(e, sv, program@));
                assert(has_missing(sv, program@));
            }
            return Err(e);
        }
        k += 1;
    }
    proof {
        assert(!has_missing(sv, program@));
    }
    Ok(())
}

/// A value-equal copy of a layout, taken when a source is pulled from the
/// buffer collaborator.
pub fn clone_entries(v: &Vec<AttributeEntry>) -> (r: Vec<AttributeEntry>)
    ensures
        r@ == v@,
{
    let mut r: Vec<AttributeEntry> = Vec::new();
    proof {
        assert(r@ =~= v@.take(0));
    }
    let mut i: usize = 0;
    while i < v.len()
        invariant
            0 <= i <= v@.len(),
            r@ == v@.take(i as int),
        decreases v@.len() - i,
    {
        let e = &v[i];
        let copied = AttributeEntry { name: e.name.clone(), offset: e.offset, ty: e.ty };
        proof {
            assert(copied == v@[i as int]);
        }
        r.push(copied);
        proof {
            assert(r@ =~= v@.take(i + 1));
        }
        i += 1;
    }
    proof {
        assert(v@.take(i as int) =~= v@);
    }
    r
}

/// The attribute-pointer call of the given form.
pub open spec fn spec_attrib_pointer(form: PointerForm, location: u32, components: u32, data_type: u32, stride: usize, offset: usize) -> DeviceCommand {
    match form {
        PointerForm::Integer => DeviceCommand::VertexAttribIPointer { location, components, data_type, stride, offset },
        PointerForm::Double => DeviceCommand::VertexAttribLPointer { location, components, data_type, stride, offset },
        PointerForm::Float => DeviceCommand::VertexAttribPointer { location, components, data_type, stride, offset },
    }
}

/// The calls one layout entry contributes: none when the program does not
/// use an attribute of that name or leaves it unlocated; otherwise the
/// pointer call in the form the program attribute's native format asks for,
/// the step rate if one was given, and the enable call.
pub open spec fn spec_entry_commands(entry: AttributeEntryV, prog: ProgramV, stride: usize, divisor: Option<u32>) -> Seq<DeviceCommand> {
    match find_attr(prog.attributes, entry.name) {
        None => Seq::empty(),
        Some(a) => {
            if a.location == -1 {
                Seq::empty()
            } else {
                let loc = a.location as u32;
                seq![
                    spec_attrib_pointer(
                        spec_pointer_form(spec_type_to_gl(a.ty).0),
                        loc,
                        spec_type_to_gl(entry.ty).1,
                        spec_type_to_gl(entry.ty).0,
                        stride,
                        entry.offset,
                    ),
                ] + (match divisor {
                    Some(d) => seq![DeviceCommand::VertexAttribDivisor { location: loc, divisor: d }],
                    None => Seq::empty(),
                }) + seq![DeviceCommand::EnableVertexAttribArray { location: loc }]
            }
        },
    }
}

/// The calls a whole layout contributes, in order.
pub open spec fn spec_entries_commands(entries: Seq<AttributeEntryV>, prog: ProgramV, stride: usize, divisor: Option<u32>) -> Seq<DeviceCommand>
    decreases entries.len(),
{
    if entries.len() == 0 {
        Seq::empty()
    } else {
        spec_entry_commands(entries[0], prog, stride, divisor)
            + spec_entries_commands(entries.drop_first(), prog, stride, divisor)
    }
}

/// The calls one source contributes: a data-source bind only when the
/// device does not already have that buffer active, then its layout's calls.
pub open spec fn spec_source_commands(src: VertexSourceV, prog: ProgramV, array_buffer: u32) -> Seq<DeviceCommand> {
    (if src.buffer != array_buffer {
        seq![DeviceCommand::BindArrayBuffer { buffer: src.buffer }]
    } else {
        Seq::empty()
    }) + spec_entries_commands(src.bindings, prog, src.stride, src.divisor)
}

/// The calls a sequence of sources contributes, threading the tracked
/// active data source through.
pub open spec fn spec_sources_commands(sources: Seq<VertexSourceV>, prog: ProgramV, array_buffer: u32) -> Seq<DeviceCommand>
    decreases sources.len(),
{
    if sources.len() == 0 {
        Seq::empty()
    } else {
        spec_source_commands(sources[0], prog, array_buffer)
            + spec_sources_commands(sources.drop_first(), prog, sources[0].buffer)
    }
}

/// The active data source after binding the given sources in order.
pub open spec fn spec_final_array_buffer(sources: Seq<VertexSourceV>, array_buffer: u32) -> u32
    decreases sources.len(),
{
    if sources.len() == 0 {
        array_buffer
    } else {
        spec_final_array_buffer(sources.drop_first(), sources[0].buffer)
    }
}

proof fn lemma_entries_commands_snoc(entries: Seq<AttributeEntryV>, x: AttributeEntryV, prog: ProgramV, stride: usize, divisor: Option<u32>)
    ensures
        spec_entries_commands(entries.push(x), prog, stride, divisor)
            == spec_entries_commands(entries, prog, stride, divisor) + spec_entry_commands(x, prog, stride, divisor),
    decreases entries.len(),
{
    let whole = entries.push(x);
    if entries.len() == 0 {
        assert(whole[0] == x);
        assert(whole.drop_first() =~= Seq::<AttributeEntryV>::empty());
        assert(spec_entries_commands(Seq::<AttributeEntryV>::empty(), prog, stride, divisor)
            == Seq::<DeviceCommand>::empty());
        assert(spec_entries_commands(whole, prog, stride, divisor)
            == spec_entry_commands(x, prog, stride, divisor) + Seq::<DeviceCommand>::empty());
        assert(spec_entries_commands(entries, prog, stride, divisor) == Seq::<DeviceCommand>::empty());
        assert(spec_entry_commands(x, prog, stride, divisor) + Seq::<DeviceCommand>::empty()
            =~= Seq::<DeviceCommand>::empty() + spec_entry_commands(x, prog, stride, divisor));
    } else {
        assert(whole[0] == entries[0]);
        assert(whole.drop_first() =~= entries.drop_first().push(x));
        lemma_entries_commands_snoc(entries.drop_first(), x, prog, stride, divisor);
        assert(spec_entries_commands(whole, prog, stride, divisor)
            == spec_entry_commands(entries[0], prog, stride, divisor)
                + (spec_entries_commands(entries.drop_first(), prog, stride, divisor)
                    + spec_entry_commands(x, prog, stride, divisor)));
        assert(spec_entry_commands(entries[0], prog, stride, divisor)
            + (spec_entries_commands(entries.drop_first(), prog, stride, divisor)
                + spec_entry_commands(x, prog, stride, divisor))
            =~= (spec_entry_commands(entries[0], prog, stride, divisor)
                + spec_entries_commands(entries.drop_first(), prog, stride, divisor))
                + spec_entry_commands(x, prog, stride, divisor));
    }
}

proof fn lemma_sources_commands_snoc(sources: Seq<VertexSourceV>, x: VertexSourceV, prog: ProgramV, array_buffer: u32)
    ensures
        spec_sources_commands(sources.push(x), prog, array_buffer)
            == spec_sources_commands(sources, prog, array_buffer)
                + spec_source_commands(x, prog, spec_final_array_buffer(sources, array_buffer)),
        spec_final_array_buffer(sources.push(x), array_buffer) == x.buffer,
    decreases sources.len(),
{
    let whole = sources.push(x);
    if sources.len() == 0 {
        assert(whole[0] == x);
        assert(whole.drop_first() =~= Seq::<VertexSourceV>::empty());
        assert(spec_sources_commands(Seq::<VertexSourceV>::empty(), prog, x.buffer)
            == Seq::<DeviceCommand>::empty());
        assert(spec_final_array_buffer(Seq::<VertexSourceV>::empty(), x.buffer) == x.buffer);
        assert(spec_sources_commands(whole, prog, array_buffer)
            == spec_source_commands(x, prog, array_buffer) + Seq::<DeviceCommand>::empty());
        assert(spec_sources_commands(sources, prog, array_buffer) == Seq::<DeviceCommand>::empty());
        assert(spec_final_array_buffer(sources, array_buffer) == array_buffer);
        assert(spec_source_commands(x, prog, array_buffer) + Seq::<DeviceCommand>::empty()
            =~= Seq::<DeviceCommand>::empty() + spec_source_commands(x, prog, array_buffer));
    } else {
        assert(whole[0] == sources[0]);
        assert(whole.drop_first() =~= sources.drop_first().push(x));
        lemma_sources_commands_snoc(sources.drop_first(), x, prog, sources[0].buffer);
        assert(spec_final_array_buffer(whole, array_buffer)
            == spec_final_array_buffer(sources.drop_first().push(x), sources[0].buffer));
        assert(spec_final_array_buffer(sources, array_buffer)
            == spec_final_array_buffer(sources.drop_first(), sources[0].buffer));
        assert(spec_sources_commands(whole, prog, array_buffer)
            == spec_source_commands(sources[0], prog, array_buffer)
                + (spec_sources_commands(sources.drop_first(), prog, sources[0].buffer)
                    + spec_source_commands(x, prog, spec_final_array_buffer(sources.drop_first(), sources[0].buffer))));
        assert(spec_source_commands(sources[0], prog, array_buffer)
            + (spec_sources_commands(sources.drop_first(), prog, sources[0].buffer)
                + spec_source_commands(x, prog, spec_final_array_buffer(sources, array_buffer)))
            =~= (spec_source_commands(sources[0], prog, array_buffer)
                + spec_sources_commands(sources.drop_first(), prog, sources[0].buffer))
                + spec_source_commands(x, prog, spec_final_array_buffer(sources, array_buffer)));
    }
}

/// Issues the calls for one layout entry: looked up in the program, skipped
/// when unused, otherwise bound through the pointer form its program type
/// asks for, given its step rate, and enabled.
fn bind_one_attribute(device: &mut Device, entry: &AttributeEntry, stride: usize, divisor: Option<u32>, program: &Program)
    requires
        program.wf(),
    ensures
        final(device).commands@ == old(device).commands@ + spec_entry_commands(entry@, program@, stride, divisor),
        final(device).tier == old(device).tier,
        final(device).buffer_tier == old(device).buffer_tier,
        final(device).vertex_array == old(device).vertex_array,
        final(device).array_buffer == old(device).array_buffer,
        final(device).next_id == old(device).next_id,
{
    let (data_type, elements_count) = vertex_binding_type_to_gl(entry.ty);
    let attribute = match program.get_attribute(&entry.name) {
        Some(a) => a,
        None => {
            proof {
                assert(device.commands@ =~= old(device).commands@ + spec_entry_commands(entry@, program@, stride, divisor));
            }
            return;
        },
    };
    let (attribute_ty, _) = vertex_binding_type_to_gl(attribute.ty);
    if attribute.location != -1 {
        proof {
            let k = choose|k: int| 0 <= k < program@.attributes.len() && program@.attributes[k] == attribute@;
            assert(program@.attributes[k].location >= -1);
        }
        let location = attribute.location as u32;
        match pointer_form(attribute_ty) {
            PointerForm::Integer => {
                device.commands.push(DeviceCommand::VertexAttribIPointer {
                    location, components: elements_count, data_type, stride, offset: entry.offset,
                });
            },
            PointerForm::Double => {
                device.commands.push(DeviceCommand::VertexAttribLPointer {
                    location, components: elements_count, data_type, stride, offset: entry.offset,
                });
            },
            PointerForm::Float => {
                device.commands.push(DeviceCommand::VertexAttribPointer {
                    location, components: elements_count, data_type, stride, offset: entry.offset,
                });
            },
        }
        if let Some(d) = divisor {
            device.commands.push(DeviceCommand::VertexAttribDivisor { location, divisor: d });
        }
        device.commands.push(DeviceCommand::EnableVertexAttribArray { location });
        proof {
            assert(device.commands@ =~= old(device).commands@ + spec_entry_commands(entry@, program@, stride, divisor));
        }
    } else {
        proof {
            assert(device.commands@ =~= old(device).commands@ + spec_entry_commands(entry@, program@, stride, divisor));
        }
    }
}

/// Makes one source the active data source (when it is not already) and
/// issues the calls for each of its layout entries.
fn bind_one_source(device: &mut Device, source: &VertexSource, program: &Program)
    requires
        program.wf(),
        old(device).buffer_tier is Some,
    ensures
        final(device).commands@ == old(device).commands@ + spec_source_commands(source@, program@, old(device).array_buffer),
        final(device).array_buffer == source.buffer,
        final(device).tier == old(device).tier,
        final(device).buffer_tier == old(device).buffer_tier,
        final(device).vertex_array == old(device).vertex_array,
        final(device).next_id == old(device).next_id,
{
    if device.array_buffer != source.buffer {
        device.commands.push(DeviceCommand::BindArrayBuffer { buffer: source.buffer });
        device.array_buffer = source.buffer;
    }
    let ghost base = device.commands@;
    let ghost bv = source@.bindings;
    proof {
        assert(bv.take(0) =~= Seq::<AttributeEntryV>::empty());
    }
    let mut j: usize = 0;
    while j < source.bindings.len()
        invariant
            0 <= j <= source.bindings@.len(),
            program.wf(),
            bv == source@.bindings,
            bv.len() == source.bindings@.len(),
            device.commands@ == base + spec_entries_commands(bv.take(j as int), program@, source.stride, source.divisor),
            device.tier == old(device).tier,
            device.buffer_tier == old(device).buffer_tier,
            device.vertex_array == old(device).vertex_array,
            device.array_buffer == source.buffer,
            device.next_id == old(device).next_id,
        decreases source.bindings@.len() - j,
    {
        proof {
            assert(bv[j as int] == source.bindings@[j as int]@);
        }
        bind_one_attribute(device, &source.bindings[j], source.stride, source.divisor, program);
        proof {
            assert(bv.take(j + 1) =~= bv.take(j as int).push(bv[j as int]));
            lemma_entries_commands_snoc(bv.take(j as int), bv[j as int], program@, source.stride, source.divisor);
            assert(device.commands@ =~= base + spec_entries_commands(bv.take(j + 1), program@, source.stride, source.divisor));
        }
        j += 1;
    }
    proof {
        assert(bv.take(j as int) =~= bv);
        assert(device.commands@ =~= old(device).commands@ + spec_source_commands(source@, program@, old(device).array_buffer));
    }
}

/// The full call sequence of a successful construction: allocate a handle,
/// make it current, bind the index buffer into its state, then bind every
/// source's attributes.
pub open spec fn spec_construction_commands(sources: Seq<VertexSourceV>, index_buffer: u32, prog: ProgramV, vertex_array: u32, next_id: u32, array_buffer: u32) -> Seq<DeviceCommand> {
    seq![DeviceCommand::GenVertexArray { vao: next_id }]
        + spec_bind_vao_commands(vertex_array, next_id)
        + seq![DeviceCommand::BindElementArrayBuffer { buffer: index_buffer }]
        + spec_sources_commands(sources, prog, array_buffer)
}

/// Construction succeeds exactly when the layouts are compatible with the
/// program, nothing the program needs is missing, and both capability tiers
/// are available.
pub open spec fn spec_construction_ok(sources: Seq<VertexSourceV>, prog: ProgramV, tier: Option<BindingTier>, buffer_tier: Option<BufferTier>) -> bool {
    &&& !has_mismatch(sources, prog)
    &&& !has_missing(sources, prog)
    &&& tier is Some
    &&& buffer_tier is Some
}

/// One binding-set resource: the driver handle of the binding object it
/// owns, and whether that handle is still live. A resource must be
/// explicitly destroyed before being discarded; `alive` is the safety
/// invariant that makes a double destroy or a use after destroy detectable.
#[derive(Debug)]
pub struct VertexArrayObject {
    pub id: u32,
    pub alive: bool,
}

impl VertexArrayObject {
    /// Validates the request and constructs the binding object, issuing the
    /// construction calls on the device. Validation is all-or-nothing: on
    /// any error the device is left untouched.
    pub fn new(device: &mut Device, vertex_buffers: &Vec<VertexSource>, ib_id: u32, program: &Program) -> (r: Result<VertexArrayObject, BindingError>)
        requires
            old(device).wf(),
            old(device).can_allocate(),
            program.wf(),
        ensures
            r is Ok <==> spec_construction_ok(sources_view(vertex_buffers@), program@, old(device).tier, old(device).buffer_tier),
            r is Err ==> *final(device) == *old(device),
            has_mismatch(sources_view(vertex_buffers@), program@)
                ==> (r matches Err(e) && is_mismatch_witness(e, sources_view(vertex_buffers@), program@)),
            !has_mismatch(sources_view(vertex_buffers@), program@)
                && has_missing(sources_view(vertex_buffers@), program@)
                ==> (r matches Err(e) && is_missing_witness(e, sources_view(vertex_buffers@), program@)),
            !has_mismatch(sources_view(vertex_buffers@), program@)
                && !has_missing(sources_view(vertex_buffers@), program@)
                && old(device).tier is None
                ==> r == Err::<VertexArrayObject, BindingError>(BindingError::NoVertexArrayCapability),
            !has_mismatch(sources_view(vertex_buffers@), program@)
                && !has_missing(sources_view(vertex_buffers@), program@)
                && old(device).tier is Some
                && old(device).buffer_tier is None
                ==> r == Err::<VertexArrayObject, BindingError>(BindingError::NoBufferCapability),
            r matches Ok(vao) ==> {
                &&& vao.id == old(device).next_id
                &&& vao.alive
                &&& final(device).next_id == old(device).next_id + 1
                &&& final(device).tier == old(device).tier
                &&& final(device).buffer_tier == old(device).buffer_tier
                &&& final(device).vertex_array == old(device).next_id
                &&& final(device).array_buffer
                    == spec_final_array_buffer(sources_view(vertex_buffers@), old(device).array_buffer)
                &&& final(device).commands@ == old(device).commands@
                    + spec_construction_commands(
                        sources_view(vertex_buffers@),
                        ib_id,
                        program@,
                        old(device).vertex_array,
                        old(device).next_id,
                        old(device).array_buffer,
                    )
                &&& final(device).wf()
            },
    {
        match check_attribute_types(vertex_buffers, program) {
            Ok(()) => {},
            Err(e) => {
                return Err(e);
            },
        }
        match check_missing_attributes(vertex_buffers, program) {
            Ok(()) => {},
            Err(e) => {
                return Err(e);
            },
        }
        if device.tier.is_none() {
            return Err(BindingError::NoVertexArrayCapability);
        }
        if device.buffer_tier.is_none() {
            return Err(BindingError::NoBufferCapability);
        }

        let id = device.next_id;
        device.next_id = id + 1;
        device.commands.push(DeviceCommand::GenVertexArray { vao: id });
        let _ = bind_vao(device, id);
        device.commands.push(DeviceCommand::BindElementArrayBuffer { buffer: ib_id });

        let ghost sv = sources_view(vertex_buffers@);
        let ghost pv = program@;
        let ghost start_ab = old(device).array_buffer;
        let ghost pre = old(device).commands@
            + seq![DeviceCommand::GenVertexArray { vao: id }]
            + spec_bind_vao_commands(old(device).vertex_array, id)
            + seq![DeviceCommand::BindElementArrayBuffer { buffer: ib_id }];
        proof {
            assert(device.commands@ =~= pre + spec_sources_commands(sv.take(0), pv, start_ab));
            assert(sv.take(0) =~= Seq::<VertexSourceV>::empty());
        }
        let mut i: usize = 0;
        while i < vertex_buffers.len()
            invariant
                0 <= i <= vertex_buffers@.len(),
                program.wf(),
                pv == program@,
                sv == sources_view(vertex_buffers@),
                sv.len() == vertex_buffers@.len(),
                device.tier == old(device).tier,
                device.buffer_tier == old(device).buffer_tier,
                device.buffer_tier is Some,
                device.vertex_array == id,
                device.next_id == id + 1,
                id == old(device).next_id,
                device.commands@ == pre + spec_sources_commands(sv.take(i as int), pv, start_ab),
                device.array_buffer == spec_final_array_buffer(sv.take(i as int), start_ab),
            decreases vertex_buffers@.len() - i,
        {
            proof {
                assert(sv[i as int] == vertex_buffers@[i as int]@);
            }
            bind_one_source(device, &vertex_buffers[i], program);
            proof {
                assert(sv.take(i + 1) =~= sv.take(i as int).push(sv[i as int]));
                lemma_sources_commands_snoc(sv.take(i as int), sv[i as int], pv, start_ab);
                assert(device.commands@ =~= pre + spec_sources_commands(sv.take(i + 1), pv, start_ab));
            }
            i += 1;
        }
        proof {
            assert(sv.take(i as int) =~= sv);
            assert(device.commands@ =~= old(device).commands@
                + spec_construction_commands(sv, ib_id, pv, old(device).vertex_array, old(device).next_id, start_ab));
        }
        Ok(VertexArrayObject { id, alive: true })
    }

    /// The calls a destruction issues: an unbind when the object is the
    /// device's current one, then the release of its handle.
    pub open spec fn spec_destroy_commands(id: u32, vertex_array: u32) -> Seq<DeviceCommand> {
        (if vertex_array == id {
            spec_bind_vao_commands(vertex_array, 0)
        } else {
            Seq::empty()
        }) + seq![DeviceCommand::DeleteVertexArray { vao: id }]
    }

    /// Destroys the resource: deactivates it first when it is the device's
    /// current binding object, releases its handle, and marks it dead. A
    /// second destroy is reported as a violated invariant, and changes
    /// nothing.
    pub fn destroy(&mut self, device: &mut Device) -> (r: Result<(), BindingError>)
        ensures
            !old(self).alive ==> {
                &&& r == Err::<(), BindingError>(BindingError::AlreadyDestroyed)
                &&& *final(self) == *old(self)
                &&& *final(device) == *old(device)
            },
            old(self).alive && old(device).tier is None ==> {
                &&& r == Err::<(), BindingError>(BindingError::NoVertexArrayCapability)
                &&& *final(self) == *old(self)
                &&& *final(device) == *old(device)
            },
            old(self).alive && old(device).tier is Some ==> {
                &&& r is Ok
                &&& final(self).id == old(self).id
                &&& !final(self).alive
                &&& final(device).commands@ == old(device).commands@
                    + Self::spec_destroy_commands(old(self).id, old(device).vertex_array)
                &&& final(device).vertex_array == (if old(device).vertex_array == old(self).id { 0u32 } else { old(device).vertex_array })
                &&& final(device).tier == old(device).tier
                &&& final(device).buffer_tier == old(device).buffer_tier
                &&& final(device).array_buffer == old(device).array_buffer
                &&& final(device).next_id == old(device).next_id
            },
    {
        if !self.alive {
            return Err(BindingError::AlreadyDestroyed);
        }
        if device.tier.is_none() {
            return Err(BindingError::NoVertexArrayCapability);
        }
        self.alive = false;
        if device.vertex_array == self.id {
            let _ = bind_vao(device, 0);
        }
        device.commands.push(DeviceCommand::DeleteVertexArray { vao: self.id });
        proof {
            assert(device.commands@ =~= old(device).commands@
                + Self::spec_destroy_commands(old(self).id, old(device).vertex_array));
        }
        Ok(())
    }

    /// The driver handle this resource owns.
    pub fn get_id(&self) -> (r: u32)
        ensures
            r == self.id,
    {
        self.id
    }

    /// Whether the resource still owns its handle.
    pub fn is_alive(&self) -> (r: bool)
        ensures
            r == self.alive,
    {
        self.alive
    }
}

} // verus!
