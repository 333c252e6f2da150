//! Compiling a program: from the entry values of the two stages and the
//! description of their inputs to the definition of the program.
//!
//! The source of a stage declares the registered structs in the order of
//! their registration, then the resources with their bindings, then the
//! functions in the order of their definition, and last the stage itself
//! as a function of its inputs.

use vstd::prelude::*;
use crate::block::is_input;
use crate::dag::{func_ok, is_parameter, node_ty, Graph};
use crate::error::{first_error, lemma_first_error_skips, Error};
use crate::lang::{BaseType, Expr, FuncUserDefined, ScalarType, StructId, Trace, Type};
use crate::layout::{attribute_refusal, is_layout, resolve_layout};
use crate::lower::{all_inputs, function_refusal, function_text, lower_function, type_known};
use crate::program_def::{
    leaves_of, Leaf, ProgramDef, UniformBlockDef, UniformSamplerDef, VertexDef, VertexInputRate,
};
use crate::registry::{entry_ok, Entry, Registry};
use crate::scope::{needed, needed_functions};
use crate::shader::fields::{law_paths_are_leaves, named, type_paths};
use crate::show::{node_name, struct_text, type_text, write_name, write_struct_name, write_type};
use crate::text::{decimal_text, push_decimal};

verus! {

/// A resource of a program: the variable that stands for it in the graph
/// and the path under which it was declared. A variable of sampler type
/// is a sampler, any other a uniform block.
#[derive(Debug, Clone, PartialEq, Eq)]
pub struct ResourceInput {
    pub path: String,
    pub var: Trace,
}

/// A vertex buffer of a program: the type of its vertices, the rate at
/// which it advances, the path under which it was declared, and the
/// variables that stand for the attributes of a vertex in the graph.
#[derive(Debug, Clone, PartialEq, Eq)]
pub struct VertexInput {
    pub path: String,
    pub input_rate: VertexInputRate,
    pub ty: Type,
    pub leaves: Vec<Trace>,
}

/// A uniform block definition as plain values.
pub struct BlockView {
    pub block_name: Seq<char>,
    pub arg_name: Seq<char>,
    pub ty: Type,
    pub location: nat,
}

/// A sampler definition as plain values.
pub struct SamplerView {
    pub name: Seq<char>,
    pub ty: ScalarType,
    pub texture_unit: nat,
}

/// What a uniform block definition says.
pub open spec fn block_of(d: UniformBlockDef) -> BlockView {
    BlockView { block_name: d.block_name@, arg_name: d.arg_name@, ty: d.ty, location: d.location as nat }
}

/// What a list of uniform block definitions says.
pub open spec fn blocks_of(defs: Seq<UniformBlockDef>) -> Seq<BlockView> {
    defs.map_values(|d: UniformBlockDef| block_of(d))
}

/// What a sampler definition says.
pub open spec fn sampler_of(d: UniformSamplerDef) -> SamplerView {
    SamplerView { name: d.name@, ty: d.ty, texture_unit: d.texture_unit as nat }
}

/// What a list of sampler definitions says.
pub open spec fn samplers_of(defs: Seq<UniformSamplerDef>) -> Seq<SamplerView> {
    defs.map_values(|d: UniformSamplerDef| sampler_of(d))
}

/// Whether a type is a sampler.
pub open spec fn is_sampler(ty: Type) -> bool {
    ty matches Type::Base(BaseType::Sampler2d(_))
}

/// The type of the variable of a resource.
pub open spec fn resource_ty(nodes: Seq<Expr>, funcs: Seq<FuncUserDefined>, r: ResourceInput) -> Type {
    node_ty(nodes, funcs, r.var.index as int)
}

/// Why a resource is refused, if it is: its variable must be an input, a
/// sampler must not be one of booleans, and a uniform block must hold no
/// sampler and name registered structs only.
pub open spec fn resource_refusal(
    nodes: Seq<Expr>,
    funcs: Seq<FuncUserDefined>,
    known: nat,
    r: ResourceInput,
) -> Option<Error> {
    if !is_parameter(nodes, r.var.index as int) {
        Some(Error::InterfaceMismatch)
    } else {
        match resource_ty(nodes, funcs, r) {
            Type::Base(BaseType::Sampler2d(s)) => if s == ScalarType::Bool {
                Some(Error::SamplerType)
            } else {
                None
            },
            Type::Array(BaseType::Sampler2d(_), _) => Some(Error::SamplerType),
            ty => if !ty.within(known) {
                Some(Error::UnregisteredStruct)
            } else {
                None
            },
        }
    }
}

/// The checks of the resources, one for one.
pub open spec fn resource_checks(
    nodes: Seq<Expr>,
    funcs: Seq<FuncUserDefined>,
    known: nat,
    resources: Seq<ResourceInput>,
) -> Seq<Option<Error>> {
    Seq::new(resources.len(), |i: int| resource_refusal(nodes, funcs, known, resources[i]))
}

/// The number of uniform blocks among the first `k` resources: the
/// binding location of the next one.
pub open spec fn blocks_before(
    nodes: Seq<Expr>,
    funcs: Seq<FuncUserDefined>,
    resources: Seq<ResourceInput>,
    k: nat,
) -> nat
    decreases k,
{
    if k == 0 {
        0
    } else {
        blocks_before(nodes, funcs, resources, (k - 1) as nat) + if is_sampler(
            resource_ty(nodes, funcs, resources[k - 1]),
        ) {
            0nat
        } else {
            1nat
        }
    }
}

/// The number of samplers among the first `k` resources: the texture
/// unit of the next one.
pub open spec fn samplers_before(
    nodes: Seq<Expr>,
    funcs: Seq<FuncUserDefined>,
    resources: Seq<ResourceInput>,
    k: nat,
) -> nat
    decreases k,
{
    if k == 0 {
        0
    } else {
        samplers_before(nodes, funcs, resources, (k - 1) as nat) + if is_sampler(
            resource_ty(nodes, funcs, resources[k - 1]),
        ) {
            1nat
        } else {
            0nat
        }
    }
}

/// The uniform blocks among the first `k` resources, each bound to the
/// next free location in the order in which they were declared.
pub open spec fn blocks_spec(
    nodes: Seq<Expr>,
    funcs: Seq<FuncUserDefined>,
    resources: Seq<ResourceInput>,
    k: nat,
) -> Seq<BlockView>
    decreases k,
{
    if k == 0 {
        Seq::empty()
    } else {
        let r = resources[k - 1];
        let front = blocks_spec(nodes, funcs, resources, (k - 1) as nat);
        if is_sampler(resource_ty(nodes, funcs, r)) {
            front
        } else {
            front.push(
                BlockView {
                    block_name: r.path@,
                    arg_name: node_name(nodes, r.var.index as int),
                    ty: resource_ty(nodes, funcs, r),
                    location: blocks_before(nodes, funcs, resources, (k - 1) as nat),
                },
            )
        }
    }
}

/// The component type of a sampler type.
pub open spec fn sampled(ty: Type) -> ScalarType {
    match ty {
        Type::Base(BaseType::Sampler2d(s)) => s,
        _ => ScalarType::F32,
    }
}

/// The samplers among the first `k` resources, each bound to the next
/// free texture unit in the order in which they were declared.
pub open spec fn samplers_spec(
    nodes: Seq<Expr>,
    funcs: Seq<FuncUserDefined>,
    resources: Seq<ResourceInput>,
    k: nat,
) -> Seq<SamplerView>
    decreases k,
{
    if k == 0 {
        Seq::empty()
    } else {
        let r = resources[k - 1];
        let front = samplers_spec(nodes, funcs, resources, (k - 1) as nat);
        if is_sampler(resource_ty(nodes, funcs, r)) {
            front.push(
                SamplerView {
                    name: node_name(nodes, r.var.index as int),
                    ty: sampled(resource_ty(nodes, funcs, r)),
                    texture_unit: samplers_before(nodes, funcs, resources, (k - 1) as nat),
                },
            )
        } else {
            front
        }
    }
}

/// The declaration of resource `i`.
pub open spec fn resource_text(
    nodes: Seq<Expr>,
    funcs: Seq<FuncUserDefined>,
    reg: Seq<Entry>,
    resources: Seq<ResourceInput>,
    i: int,
) -> Seq<char> {
    let r = resources[i];
    let ty = resource_ty(nodes, funcs, r);
    if is_sampler(ty) {
        "layout(binding = "@ + decimal_text(samplers_before(nodes, funcs, resources, i as nat))
            + ") uniform "@ + type_text(reg, ty) + " "@ + node_name(nodes, r.var.index as int)
            + ";\n"@
    } else {
        "layout(std140, binding = "@ + decimal_text(
            blocks_before(nodes, funcs, resources, i as nat),
        ) + ") uniform "@ + r.path@ + " {\n    "@ + type_text(reg, ty) + " "@ + node_name(
            nodes,
            r.var.index as int,
        ) + ";\n};\n"@
    }
}

/// The declarations of the first `k` resources.
pub open spec fn resources_text(
    nodes: Seq<Expr>,
    funcs: Seq<FuncUserDefined>,
    reg: Seq<Entry>,
    resources: Seq<ResourceInput>,
    k: nat,
) -> Seq<char>
    decreases k,
{
    if k == 0 {
        Seq::empty()
    } else {
        resources_text(nodes, funcs, reg, resources, (k - 1) as nat) + resource_text(
            nodes,
            funcs,
            reg,
            resources,
            k - 1,
        )
    }
}

/// Whether the node is a variable without initializer.
pub fn is_input_node(g: &Graph, t: Trace) -> (r: bool)
    ensures
        r == is_parameter(g.nodes(), t.index as int),
{
    if !g.contains(t) {
        return false;
    }
    match g.node(t) {
        Expr::Var(e) => e.var.init.is_none(),
        _ => false,
    }
}

/// The name of a node as a string.
pub fn name_string(g: &Graph, t: Trace) -> (r: String)
    requires
        g.has(t),
    ensures
        r@ == node_name(g.nodes(), t.index as int),
{
    let mut r: String = String::new();
    write_name(g, t, &mut r);
    r
}

/// What the declaration of the resources gives: the definitions of the
/// uniform blocks and the samplers, and the text that declares them.
pub struct Resources {
    pub blocks: Vec<UniformBlockDef>,
    pub samplers: Vec<UniformSamplerDef>,
    pub vars: Vec<Trace>,
    pub text: String,
}

/// Binds every uniform block to a location and every sampler to a texture
/// unit, in the order in which the resources are given, and writes their
/// declarations.
pub fn declare_resources(g: &Graph, reg: &Registry, resources: &Vec<ResourceInput>) -> (r: Result<
    Resources,
    Error,
>)
    requires
        g.wf(),
    ensures
        match r {
            Ok(d) => {
                &&& first_error(resource_checks(g.nodes(), g.funcs(), reg@.len(), resources@), 0) is None
                &&& blocks_of(d.blocks@) == blocks_spec(
                    g.nodes(),
                    g.funcs(),
                    resources@,
                    resources@.len(),
                )
                &&& samplers_of(d.samplers@) == samplers_spec(
                    g.nodes(),
                    g.funcs(),
                    resources@,
                    resources@.len(),
                )
                &&& d.vars@ == resource_vars(resources@)
                &&& d.text@ == resources_text(
                    g.nodes(),
                    g.funcs(),
                    reg@,
                    resources@,
                    resources@.len(),
                )
            },
            Err(e) => first_error(resource_checks(g.nodes(), g.funcs(), reg@.len(), resources@), 0)
                == Some(e),
        },
{
    let ghost nodes = g.nodes();
    let ghost funcs = g.funcs();
    let ghost checks = resource_checks(nodes, funcs, reg@.len(), resources@);
    let mut blocks: Vec<UniformBlockDef> = Vec::new();
    let mut samplers: Vec<UniformSamplerDef> = Vec::new();
    let mut vars: Vec<Trace> = Vec::new();
    let mut text: String = String::new();
    let mut i: usize = 0;
    while i < resources.len()
        invariant
            i <= resources.len(),
            g.wf(),
            nodes == g.nodes(),
            funcs == g.funcs(),
            checks == resource_checks(nodes, funcs, reg@.len(), resources@),
            forall|j: int| 0 <= j < i ==> (#[trigger] checks[j]) is None,
            blocks@.len() == blocks_before(nodes, funcs, resources@, i as nat),
            samplers@.len() == samplers_before(nodes, funcs, resources@, i as nat),
            blocks_of(blocks@) == blocks_spec(nodes, funcs, resources@, i as nat),
            samplers_of(samplers@) == samplers_spec(nodes, funcs, resources@, i as nat),
            vars@ == resource_vars(resources@).subrange(0, i as int),
            text@ == resources_text(nodes, funcs, reg@, resources@, i as nat),
        decreases resources.len() - i,
    {
        let var: Trace = resources[i].var;
        proof {
            lemma_first_error_skips(checks, 0, i as int);
        }
        if !is_input_node(g, var) {
            return Err(Error::InterfaceMismatch);
        }
        let ty: Type = g.ty(var);
        match ty {
            Type::Base(BaseType::Sampler2d(s)) => {
                match s {
                    ScalarType::Bool => {
                        return Err(Error::SamplerType);
                    },
                    _ => {},
                }
                let unit: usize = samplers.len();
                text.append("layout(binding = ");
                push_decimal(&mut text, unit as u64);
                text.append(") uniform ");
                write_type(reg, ty, &mut text);
                text.append(" ");
                write_name(g, var, &mut text);
                text.append(";\n");
                let def = UniformSamplerDef { name: name_string(g, var), ty: s, texture_unit: unit };
                samplers.push(def);
            },
            Type::Array(BaseType::Sampler2d(_), _) => {
                return Err(Error::SamplerType);
            },
            _ => {
                if !type_known(reg, ty) {
                    return Err(Error::UnregisteredStruct);
                }
                let location: usize = blocks.len();
                text.append("layout(std140, binding = ");
                push_decimal(&mut text, location as u64);
                text.append(") uniform ");
                text.append(resources[i].path.as_str());
                text.append(" {\n    ");
                write_type(reg, ty, &mut text);
                text.append(" ");
                write_name(g, var, &mut text);
                text.append(";\n};\n");
                let def = UniformBlockDef {
                    block_name: resources[i].path.clone(),
                    arg_name: name_string(g, var),
                    ty,
                    location,
                };
                blocks.push(def);
            },
        }
        vars.push(var);
        i += 1;
    }
    proof {
        lemma_first_error_skips(checks, 0, resources@.len() as int);
    }
    Ok(Resources { blocks, samplers, vars, text })
}

/// What every stage begins with.
pub open spec fn header_text() -> Seq<char> {
    "#version 310 es\nprecision highp float;\n"@
}

/// The declarations of the first `k` fields of a struct.
pub open spec fn members_text(reg: Seq<Entry>, fields: Seq<(String, Type)>, k: nat) -> Seq<char>
    decreases k,
{
    if k == 0 {
        Seq::empty()
    } else {
        members_text(reg, fields, (k - 1) as nat) + "    "@ + type_text(reg, fields[k - 1].1) + " "@
            + fields[k - 1].0@ + ";\n"@
    }
}

/// The declaration of struct `i`.
pub open spec fn struct_decl_text(reg: Seq<Entry>, i: int) -> Seq<char> {
    "struct "@ + struct_text(reg, StructId { index: i as usize }) + " {\n"@ + members_text(
        reg,
        reg[i].ty.fields@,
        reg[i].ty.fields@.len(),
    ) + "};\n"@
}

/// The declarations of the first `k` structs, in the order of their
/// registration. A struct is registered after the structs it names, so
/// each is declared before it is named.
pub open spec fn structs_text(reg: Seq<Entry>, k: nat) -> Seq<char>
    decreases k,
{
    if k == 0 {
        Seq::empty()
    } else {
        structs_text(reg, (k - 1) as nat) + struct_decl_text(reg, k - 1)
    }
}

/// The variables of the resources, one for one.
pub open spec fn resource_vars(resources: Seq<ResourceInput>) -> Seq<Trace> {
    resources.map_values(|r: ResourceInput| r.var)
}

/// The checks of the functions that the value of `root` needs, one for
/// one. A function that is not needed is not looked at.
pub open spec fn function_checks(
    nodes: Seq<Expr>,
    funcs: Seq<FuncUserDefined>,
    known: nat,
    globals: Seq<Trace>,
    root: int,
) -> Seq<Option<Error>> {
    Seq::new(
        funcs.len(),
        |f: int|
            if needed(nodes, funcs, root, f) {
                function_refusal(
                    nodes,
                    funcs,
                    known,
                    funcs[f].params@,
                    globals,
                    funcs[f].result.index as int,
                )
            } else {
                None
            },
    )
}

/// The definitions of those of the first `k` functions that the value of
/// `root` needs, in the order of their definition. A function is defined
/// after the functions that its body calls, so each is written before its
/// first call.
pub open spec fn functions_text(
    nodes: Seq<Expr>,
    funcs: Seq<FuncUserDefined>,
    reg: Seq<Entry>,
    root: int,
    k: nat,
) -> Seq<char>
    decreases k,
{
    if k == 0 {
        Seq::empty()
    } else {
        functions_text(nodes, funcs, reg, root, (k - 1) as nat) + if needed(
            nodes,
            funcs,
            root,
            k - 1,
        ) {
            function_text(
                nodes,
                funcs,
                reg,
                funcs[k - 1].ident.text(),
                funcs[k - 1].params@,
                funcs[k - 1].result.index as int,
            )
        } else {
            Seq::empty()
        }
    }
}

/// Appends the declarations of all registered structs.
pub fn write_structs(reg: &Registry, out: &mut String)
    requires
        reg.wf(),
    ensures
        final(out)@ == old(out)@ + structs_text(reg@, reg@.len()),
{
    let mut i: usize = 0;
    while i < reg.len()
        invariant
            i <= reg@.len(),
            reg.wf(),
            out@ == old(out)@ + structs_text(reg@, i as nat),
        decreases reg@.len() - i,
    {
        let id = StructId { index: i };
        let entry = reg.get(id);
        out.append("struct ");
        write_struct_name(reg, id, out);
        out.append(" {\n");
        let ghost head = out@;
        let fields = &entry.ty.fields;
        let mut k: usize = 0;
        while k < fields.len()
            invariant
                k <= fields.len(),
                reg.wf(),
                0 <= i < reg@.len(),
                *fields == reg@[i as int].ty.fields,
                out@ == head + members_text(reg@, fields@, k as nat),
            decreases fields.len() - k,
        {
            proof {
                assert(entry_ok(reg@, i as int));
            }
            out.append("    ");
            write_type(reg, fields[k].1, out);
            out.append(" ");
            out.append(fields[k].0.as_str());
            out.append(";\n");
            k += 1;
        }
        out.append("};\n");
        i += 1;
    }
}

/// Appends the definitions of the functions that the value of `root`
/// needs. The first of them that cannot be written decides the refusal.
pub fn write_functions(
    g: &Graph,
    reg: &Registry,
    globals: &Vec<Trace>,
    root: Trace,
    out: &mut String,
) -> (r: Result<(), Error>)
    requires
        g.wf(),
        g.has(root),
    ensures
        match r {
            Ok(_) => first_error(
                function_checks(g.nodes(), g.funcs(), reg@.len(), globals@, root.index as int),
                0,
            ) is None && final(out)@ == old(out)@ + functions_text(
                g.nodes(),
                g.funcs(),
                reg@,
                root.index as int,
                g.funcs().len(),
            ),
            Err(e) => first_error(
                function_checks(g.nodes(), g.funcs(), reg@.len(), globals@, root.index as int),
                0,
            ) == Some(e),
        },
{
    let ghost nodes = g.nodes();
    let ghost funcs = g.funcs();
    let ghost r = root.index as int;
    let ghost checks = function_checks(nodes, funcs, reg@.len(), globals@, r);
    let marks: Vec<bool> = needed_functions(g, root);
    let mut i: usize = 0;
    while i < g.func_count()
        invariant
            i <= funcs.len(),
            g.wf(),
            nodes == g.nodes(),
            funcs == g.funcs(),
            r == root.index,
            marks@.len() == funcs.len(),
            forall|f: int| 0 <= f < funcs.len() ==> #[trigger] marks@[f] == needed(nodes, funcs, r, f),
            checks == function_checks(nodes, funcs, reg@.len(), globals@, r),
            forall|j: int| 0 <= j < i ==> (#[trigger] checks[j]) is None,
            out@ == old(out)@ + functions_text(nodes, funcs, reg@, r, i as nat),
        decreases funcs.len() - i,
    {
        proof {
            assert(func_ok(nodes, funcs, i as int));
            lemma_first_error_skips(checks, 0, i as int);
        }
        if marks[i] {
            let f = g.func(crate::lang::FuncId { index: i });
            let name: String = f.ident.to_string();
            match lower_function(g, reg, name.as_str(), &f.params, globals, f.result) {
                Ok(text) => {
                    out.append(text.as_str());
                },
                Err(e) => {
                    return Err(e);
                },
            }
        }
        i += 1;
    }
    proof {
        lemma_first_error_skips(checks, 0, funcs.len() as int);
    }
    Ok(())
}

/// Whether the variables stand for the named values, one for one: each
/// is an input of the name and type of its value.
pub open spec fn leaves_match(nodes: Seq<Expr>, leaves: Seq<Trace>, paths: Seq<(Seq<char>, Type)>) -> bool {
    &&& leaves.len() == paths.len()
    &&& forall|i: int|
        0 <= i < leaves.len() ==> (#[trigger] leaves[i]).index < nodes.len() && is_input(
            nodes[leaves[i].index as int],
            paths[i].0,
            paths[i].1,
        )
}

/// Why a vertex buffer is refused, if it is: its type must lay out as
/// attributes, and its variables must stand for them one for one.
pub open spec fn vertex_refusal(nodes: Seq<Expr>, reg: Seq<Entry>, v: VertexInput) -> Option<Error> {
    match attribute_refusal(reg, v.ty) {
        Some(e) => Some(e),
        None => if !leaves_match(nodes, v.leaves@, type_paths(reg, v.ty, v.path@)) {
            Some(Error::InterfaceMismatch)
        } else {
            None
        },
    }
}

/// The checks of the vertex buffers, one for one.
pub open spec fn vertex_checks(nodes: Seq<Expr>, reg: Seq<Entry>, inputs: Seq<VertexInput>) -> Seq<
    Option<Error>,
> {
    Seq::new(inputs.len(), |i: int| vertex_refusal(nodes, reg, inputs[i]))
}

/// The variables of the first `k` vertex buffers, in order.
pub open spec fn all_leaves(inputs: Seq<VertexInput>, k: nat) -> Seq<Trace>
    decreases k,
{
    if k == 0 {
        Seq::empty()
    } else {
        all_leaves(inputs, (k - 1) as nat) + inputs[k - 1].leaves@
    }
}

/// Whether the definitions are the layouts of the vertex buffers, one
/// for one.
pub open spec fn are_layouts(defs: Seq<VertexDef>, reg: Seq<Entry>, inputs: Seq<VertexInput>) -> bool {
    &&& defs.len() == inputs.len()
    &&& forall|i: int|
        0 <= i < defs.len() ==> is_layout(
            #[trigger] defs[i],
            reg,
            inputs[i].ty,
            inputs[i].path@,
            inputs[i].input_rate,
        )
}

/// What the declaration of the vertex buffers gives: their definitions
/// and the variables that stand for their attributes.
pub struct Vertices {
    pub defs: Vec<VertexDef>,
    pub params: Vec<Trace>,
}

/// Whether the variables stand for the attributes, one for one.
fn check_leaves(g: &Graph, leaves: &Vec<Trace>, def: &VertexDef) -> (r: bool)
    ensures
        r == leaves_match(
            g.nodes(),
            leaves@,
            leaves_of(def.attributes@).map_values(|l: Leaf| named(l)),
        ),
{
    let ghost paths = leaves_of(def.attributes@).map_values(|l: Leaf| named(l));
    if leaves.len() != def.attributes.len() {
        return false;
    }
    let mut i: usize = 0;
    while i < leaves.len()
        invariant
            i <= leaves.len(),
            leaves@.len() == def.attributes@.len(),
            paths == leaves_of(def.attributes@).map_values(|l: Leaf| named(l)),
            forall|j: int|
                0 <= j < i ==> (#[trigger] leaves@[j]).index < g.nodes().len() && is_input(
                    g.nodes()[leaves@[j].index as int],
                    paths[j].0,
                    paths[j].1,
                ),
        decreases leaves.len() - i,
    {
        let t: Trace = leaves[i];
        let ok: bool = g.contains(t) && match g.node(t) {
            Expr::Var(e) => e.var.init.is_none() && e.var.ident.name == def.attributes[i].name
                && e.var.ty == def.attributes[i].ty,
            _ => false,
        };
        if !ok {
            return false;
        }
        i += 1;
    }
    true
}

/// Resolves the layout of every vertex buffer and checks the variables
/// that stand for its attributes against it.
pub fn declare_vertices(g: &Graph, reg: &Registry, inputs: &Vec<VertexInput>) -> (r: Result<
    Vertices,
    Error,
>)
    requires
        g.wf(),
        reg.wf(),
    ensures
        match r {
            Ok(v) => {
                &&& first_error(vertex_checks(g.nodes(), reg@, inputs@), 0) is None
                &&& are_layouts(v.defs@, reg@, inputs@)
                &&& v.params@ == all_leaves(inputs@, inputs@.len())
                &&& all_inputs(g, v.params@)
            },
            Err(e) => first_error(vertex_checks(g.nodes(), reg@, inputs@), 0) == Some(e),
        },
{
    let ghost nodes = g.nodes();
    let ghost checks = vertex_checks(nodes, reg@, inputs@);
    let mut defs: Vec<VertexDef> = Vec::new();
    let mut params: Vec<Trace> = Vec::new();
    let mut i: usize = 0;
    while i < inputs.len()
        invariant
            i <= inputs.len(),
            g.wf(),
            reg.wf(),
            nodes == g.nodes(),
            checks == vertex_checks(nodes, reg@, inputs@),
            forall|j: int| 0 <= j < i ==> (#[trigger] checks[j]) is None,
            defs@.len() == i,
            forall|j: int|
                0 <= j < i ==> is_layout(
                    #[trigger] defs@[j],
                    reg@,
                    inputs@[j].ty,
                    inputs@[j].path@,
                    inputs@[j].input_rate,
                ),
            params@ == all_leaves(inputs@, i as nat),
            all_inputs(g, params@),
        decreases inputs.len() - i,
    {
        let input = &inputs[i];
        proof {
            lemma_first_error_skips(checks, 0, i as int);
            law_paths_are_leaves(reg@, input.ty, input.path@);
        }
        let def = match resolve_layout(reg, input.ty, input.path.as_str(), input.input_rate) {
            Ok(def) => def,
            Err(e) => {
                return Err(e);
            },
        };
        if !check_leaves(g, &input.leaves, &def) {
            return Err(Error::InterfaceMismatch);
        }
        let ghost old_params = params@;
        let mut k: usize = 0;
        while k < input.leaves.len()
            invariant
                k <= input.leaves.len(),
                params@ == old_params + input.leaves@.subrange(0, k as int),
            decreases input.leaves.len() - k,
        {
            params.push(input.leaves[k]);
            k += 1;
        }
        proof {
            assert forall|j: int| 0 <= j < params@.len() implies is_parameter(
                nodes,
                (#[trigger] params@[j]).index as int,
            ) by {}
        }
        defs.push(def);
        i += 1;
    }
    proof {
        lemma_first_error_skips(checks, 0, inputs@.len() as int);
    }
    Ok(Vertices { defs, params })
}

/// The text that both stages begin with: the header, the structs and the
/// resources.
pub open spec fn common_text(
    nodes: Seq<Expr>,
    funcs: Seq<FuncUserDefined>,
    reg: Seq<Entry>,
    resources: Seq<ResourceInput>,
) -> Seq<char> {
    header_text() + structs_text(reg, reg.len()) + resources_text(
        nodes,
        funcs,
        reg,
        resources,
        resources.len(),
    )
}

/// The source of a stage: the common text, the functions that the stage
/// needs, and the stage as a function of its inputs.
pub open spec fn stage_text(
    nodes: Seq<Expr>,
    funcs: Seq<FuncUserDefined>,
    reg: Seq<Entry>,
    resources: Seq<ResourceInput>,
    name: Seq<char>,
    params: Seq<Trace>,
    root: int,
) -> Seq<char> {
    common_text(nodes, funcs, reg, resources) + functions_text(nodes, funcs, reg, root, funcs.len())
        + function_text(nodes, funcs, reg, name, params, root)
}

/// Why a stage cannot be written, if it cannot: the first refusal among
/// the functions that it needs, or else the refusal of the stage itself.
pub open spec fn stage_refusal(
    nodes: Seq<Expr>,
    funcs: Seq<FuncUserDefined>,
    known: nat,
    params: Seq<Trace>,
    globals: Seq<Trace>,
    root: int,
) -> Option<Error> {
    match first_error(function_checks(nodes, funcs, known, globals, root), 0) {
        Some(e) => Some(e),
        None => function_refusal(nodes, funcs, known, params, globals, root),
    }
}

/// Why a program is refused, if it is. The checks are made in this order
/// and the first that fails decides.
pub open spec fn compile_refusal(
    g: &Graph,
    reg: Seq<Entry>,
    resources: Seq<ResourceInput>,
    vertex_inputs: Seq<VertexInput>,
    interpolants: Seq<Trace>,
    vertex_entry: Trace,
    fragment_entry: Trace,
) -> Option<Error> {
    let nodes = g.nodes();
    let funcs = g.funcs();
    if !g.has(vertex_entry) || !g.has(fragment_entry) {
        Some(Error::UnknownNode)
    } else if first_error(resource_checks(nodes, funcs, reg.len(), resources), 0) is Some {
        first_error(resource_checks(nodes, funcs, reg.len(), resources), 0)
    } else if first_error(vertex_checks(nodes, reg, vertex_inputs), 0) is Some {
        first_error(vertex_checks(nodes, reg, vertex_inputs), 0)
    } else if !all_inputs(g, interpolants) {
        Some(Error::InterfaceMismatch)
    } else if stage_refusal(
        nodes,
        funcs,
        reg.len(),
        all_leaves(vertex_inputs, vertex_inputs.len()),
        resource_vars(resources),
        vertex_entry.index as int,
    ) is Some {
        stage_refusal(
            nodes,
            funcs,
            reg.len(),
            all_leaves(vertex_inputs, vertex_inputs.len()),
            resource_vars(resources),
            vertex_entry.index as int,
        )
    } else {
        stage_refusal(
            nodes,
            funcs,
            reg.len(),
            interpolants,
            resource_vars(resources),
            fragment_entry.index as int,
        )
    }
}

/// Whether `def` is the definition of the program described by the
/// arguments.
pub open spec fn is_program(
    def: ProgramDef,
    g: &Graph,
    reg: Seq<Entry>,
    resources: Seq<ResourceInput>,
    vertex_inputs: Seq<VertexInput>,
    interpolants: Seq<Trace>,
    vertex_entry: Trace,
    fragment_entry: Trace,
) -> bool {
    let nodes = g.nodes();
    let funcs = g.funcs();
    &&& blocks_of(def.uniform_block_defs@) == blocks_spec(nodes, funcs, resources, resources.len())
    &&& samplers_of(def.uniform_sampler_defs@) == samplers_spec(
        nodes,
        funcs,
        resources,
        resources.len(),
    )
    &&& are_layouts(def.vertex_defs@, reg, vertex_inputs)
    &&& def.vertex_shader_source@ == stage_text(
        nodes,
        funcs,
        reg,
        resources,
        "vertex_stage"@,
        all_leaves(vertex_inputs, vertex_inputs.len()),
        vertex_entry.index as int,
    )
    &&& def.fragment_shader_source@ == stage_text(
        nodes,
        funcs,
        reg,
        resources,
        "fragment_stage"@,
        interpolants,
        fragment_entry.index as int,
    )
}

/// Appends the functions that a stage needs and the stage itself, as a
/// function named `name` of the inputs `params`.
pub fn lower_stage(
    g: &Graph,
    reg: &Registry,
    name: &str,
    params: &Vec<Trace>,
    globals: &Vec<Trace>,
    root: Trace,
    out: &mut String,
) -> (r: Result<(), Error>)
    requires
        g.wf(),
        g.has(root),
        all_inputs(g, params@),
    ensures
        match r {
            Ok(_) => stage_refusal(
                g.nodes(),
                g.funcs(),
                reg@.len(),
                params@,
                globals@,
                root.index as int,
            ) is None && final(out)@ == old(out)@ + functions_text(
                g.nodes(),
                g.funcs(),
                reg@,
                root.index as int,
                g.funcs().len(),
            ) + function_text(g.nodes(), g.funcs(), reg@, name@, params@, root.index as int),
            Err(e) => stage_refusal(
                g.nodes(),
                g.funcs(),
                reg@.len(),
                params@,
                globals@,
                root.index as int,
            ) == Some(e),
        },
{
    match write_functions(g, reg, globals, root, out) {
        Ok(_) => {},
        Err(e) => {
            return Err(e);
        },
    }
    match lower_function(g, reg, name, params, globals, root) {
        Ok(text) => {
            out.append(text.as_str());
            Ok(())
        },
        Err(e) => Err(e),
    }
}

/// Whether every handle names a variable without initializer.
pub fn inputs_only(g: &Graph, params: &Vec<Trace>) -> (r: bool)
    ensures
        r == all_inputs(g, params@),
{
    let mut i: usize = 0;
    while i < params.len()
        invariant
            i <= params.len(),
            forall|k: int| 0 <= k < i ==> is_parameter(g.nodes(), (#[trigger] params@[k]).index as int),
        decreases params.len() - i,
    {
        if !is_input_node(g, params[i]) {
            return false;
        }
        i += 1;
    }
    true
}

/// Compiles a program: binds the resources, resolves the layout of the
/// vertex buffers and writes the source of both stages. The vertex stage
/// is a function of the attributes of the vertex buffers, the fragment
/// stage one of the interpolants. Either the whole definition is given or
/// a refusal; nothing is emitted in part.
pub fn compile_to_program_def(
    g: &Graph,
    reg: &Registry,
    resources: &Vec<ResourceInput>,
    vertex_inputs: &Vec<VertexInput>,
    interpolants: &Vec<Trace>,
    vertex_entry: Trace,
    fragment_entry: Trace,
) -> (r: Result<ProgramDef, Error>)
    requires
        g.wf(),
        reg.wf(),
    ensures
        match r {
            Ok(def) => compile_refusal(
                g,
                reg@,
                resources@,
                vertex_inputs@,
                interpolants@,
                vertex_entry,
                fragment_entry,
            ) is None && is_program(
                def,
                g,
                reg@,
                resources@,
                vertex_inputs@,
                interpolants@,
                vertex_entry,
                fragment_entry,
            ),
            Err(e) => compile_refusal(
                g,
                reg@,
                resources@,
                vertex_inputs@,
                interpolants@,
                vertex_entry,
                fragment_entry,
            ) == Some(e),
        },
{
    if !g.contains(vertex_entry) || !g.contains(fragment_entry) {
        return Err(Error::UnknownNode);
    }
    let declared = match declare_resources(g, reg, resources) {
        Ok(d) => d,
        Err(e) => {
            return Err(e);
        },
    };
    let vertices = match declare_vertices(g, reg, vertex_inputs) {
        Ok(v) => v,
        Err(e) => {
            return Err(e);
        },
    };
    if !inputs_only(g, interpolants) {
        return Err(Error::InterfaceMismatch);
    }
    let mut common: String = String::from_str("#version 310 es\nprecision highp float;\n");
    write_structs(reg, &mut common);
    common.append(declared.text.as_str());
    let mut vertex_shader_source: String = common.clone();
    match lower_stage(
        g,
        reg,
        "vertex_stage",
        &vertices.params,
        &declared.vars,
        vertex_entry,
        &mut vertex_shader_source,
    ) {
        Ok(_) => {},
        Err(e) => {
            return Err(e);
        },
    }
    let mut fragment_shader_source: String = common;
    match lower_stage(
        g,
        reg,
        "fragment_stage",
        interpolants,
        &declared.vars,
        fragment_entry,
        &mut fragment_shader_source,
    ) {
        Ok(_) => {},
        Err(e) => {
            return Err(e);
        },
    }
    Ok(
        ProgramDef {
            uniform_block_defs: declared.blocks,
            uniform_sampler_defs: declared.samplers,
            vertex_defs: vertices.defs,
            vertex_shader_source,
            fragment_shader_source,
        },
    )
}

} // verus!
