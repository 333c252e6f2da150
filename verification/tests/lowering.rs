use posh::compile::{
    compile_to_program_def, declare_resources, declare_vertices, inputs_only, is_input_node,
    name_string, write_functions, write_structs, ResourceInput, VertexInput,
};
use posh::dag::Graph;
use posh::error::Error;
use posh::lang::{BaseType, BinOp, Ident, Lit, ScalarType, StructId, Trace, Type};
use posh::lower::{lower_function, type_known};
use posh::program_def::{
    UniformBlockDef, UniformSamplerDef, VertexAttributeDef, VertexDef, VertexInputRate,
};
use posh::registry::{Registry, StructTy};
use posh::scope::{analyse, operand_list, unmarked};
use posh::value::primitives::{
    binary, builtin, builtin1, call, define_func, field, from_ident, let_, literal, ternary,
};

fn scalar(s: ScalarType) -> Type {
    Type::Base(BaseType::Scalar(s))
}

fn f32_ty() -> Type {
    scalar(ScalarType::F32)
}

fn vec2() -> Type {
    Type::Base(BaseType::Vec2(ScalarType::F32))
}

/// An input that is rendered as `name_0000000n`.
fn named(g: &mut Graph, name: &str, n: u32, ty: Type) -> Trace {
    from_ident(g, Ident::with_token(name.to_string(), (n as u128) << 96), ty)
}

fn count(text: &str, part: &str) -> usize {
    text.matches(part).count()
}

fn point(reg: &mut Registry) -> StructId {
    let ty = StructTy {
        name: "Point".to_string(),
        fields: vec![("x".to_string(), f32_ty()), ("y".to_string(), vec2())],
    };
    reg.register_struct(1, ty).unwrap()
}

#[test]
fn single_use_is_written_in_place() {
    let reg = Registry::new();
    let mut g = Graph::new();
    let a = named(&mut g, "a", 1, f32_ty());
    let b = named(&mut g, "b", 2, f32_ty());
    let s = binary(&mut g, a, BinOp::Add, b).unwrap();
    let text = lower_function(&g, &reg, "f", &vec![a, b], &vec![], s).unwrap();
    assert_eq!(
        text,
        "float f(float a_00000001, float b_00000002) {\n    return (a_00000001 + b_00000002);\n}\n"
    );
}

#[test]
fn value_with_two_users_is_computed_once() {
    let reg = Registry::new();
    let mut g = Graph::new();
    let a = named(&mut g, "a", 1, f32_ty());
    let b = named(&mut g, "b", 2, f32_ty());
    let t = binary(&mut g, a, BinOp::Add, b).unwrap();
    let m = binary(&mut g, t, BinOp::Mul, a).unwrap();
    let n = binary(&mut g, t, BinOp::Mul, b).unwrap();
    let r = binary(&mut g, m, BinOp::Sub, n).unwrap();
    let text = lower_function(&g, &reg, "f", &vec![a, b], &vec![], r).unwrap();
    assert_eq!(
        text,
        "float f(float a_00000001, float b_00000002) {\n    \
         float tmp2 = (a_00000001 + b_00000002);\n    \
         return ((tmp2 * a_00000001) - (tmp2 * b_00000002));\n}\n"
    );
    assert_eq!(count(&text, "(a_00000001 + b_00000002)"), 1);
    assert_eq!(count(&text, "tmp2"), 3);
    let scope = analyse(&g, r);
    assert_eq!(scope.reach, vec![true; 6]);
    assert_eq!(scope.shared, vec![true, true, true, false, false, false]);
}

#[test]
fn value_used_twice_by_one_node_is_written_twice() {
    let reg = Registry::new();
    let mut g = Graph::new();
    let a = named(&mut g, "a", 1, f32_ty());
    let b = named(&mut g, "b", 2, f32_ty());
    let t = binary(&mut g, a, BinOp::Add, b).unwrap();
    let r = binary(&mut g, t, BinOp::Mul, t).unwrap();
    let text = lower_function(&g, &reg, "f", &vec![a, b], &vec![], r).unwrap();
    assert_eq!(
        text,
        "float f(float a_00000001, float b_00000002) {\n    \
         return ((a_00000001 + b_00000002) * (a_00000001 + b_00000002));\n}\n"
    );
}

#[test]
fn explicit_binding_is_computed_once_and_used_by_name() {
    let reg = Registry::new();
    let mut g = Graph::new();
    let a = named(&mut g, "a", 1, f32_ty());
    let b = named(&mut g, "b", 2, f32_ty());
    let sum = binary(&mut g, a, BinOp::Add, b).unwrap();
    let t = let_(&mut g, "t", sum).unwrap();
    let first = binary(&mut g, t, BinOp::Mul, a).unwrap();
    let second = binary(&mut g, t, BinOp::Mul, b).unwrap();
    let r = binary(&mut g, first, BinOp::Add, second).unwrap();
    let text = lower_function(&g, &reg, "f", &vec![a, b], &vec![], r).unwrap();
    let t_name = name_string(&g, t);
    assert!(t_name.starts_with("t_"));
    assert_eq!(t_name.len(), 10);
    assert_eq!(
        text,
        format!(
            "float f(float a_00000001, float b_00000002) {{\n    \
             float {t} = (a_00000001 + b_00000002);\n    \
             return (({t} * a_00000001) + ({t} * b_00000002));\n}}\n",
            t = t_name
        )
    );
    assert_eq!(count(&text, "(a_00000001 + b_00000002)"), 1);
    assert_eq!(count(&text, &t_name), 3);
}

#[test]
fn selection_is_written_after_its_condition() {
    let reg = Registry::new();
    let mut g = Graph::new();
    let x = named(&mut g, "x", 1, f32_ty());
    let y = named(&mut g, "y", 2, f32_ty());
    let a = named(&mut g, "a", 3, f32_ty());
    let b = named(&mut g, "b", 4, f32_ty());
    let cond = binary(&mut g, x, BinOp::Eq, y).unwrap();
    let sum = binary(&mut g, a, BinOp::Add, b).unwrap();
    let diff = binary(&mut g, a, BinOp::Sub, b).unwrap();
    let z = ternary(&mut g, cond, sum, diff).unwrap();
    let text = lower_function(&g, &reg, "fragment_stage", &vec![x, y, a, b], &vec![], z).unwrap();
    assert_eq!(
        text,
        "float fragment_stage(float x_00000001, float y_00000002, float a_00000003, \
         float b_00000004) {\n    \
         return ((x_00000001 == y_00000002) ? (a_00000003 + b_00000004) : \
         (a_00000003 - b_00000004));\n}\n"
    );
    let at_cond = text.find("(x_00000001 == y_00000002)").unwrap();
    let at_select = text.find(" ? ").unwrap();
    let at_end = text.find(";\n}").unwrap();
    assert!(at_cond < at_select && at_select < at_end);
    assert_eq!(count(&text, "(a_00000003 + b_00000004)"), 1);
    assert_eq!(count(&text, "(a_00000003 - b_00000004)"), 1);
    assert_eq!(count(&text, " + "), 1);
    assert_eq!(count(&text, " - "), 1);
    assert_eq!(count(&text, " == "), 1);
}

#[test]
fn bound_condition_and_selection_come_before_the_return() {
    let reg = Registry::new();
    let mut g = Graph::new();
    let x = named(&mut g, "x", 1, f32_ty());
    let y = named(&mut g, "y", 2, f32_ty());
    let a = named(&mut g, "a", 3, f32_ty());
    let b = named(&mut g, "b", 4, f32_ty());
    let same = binary(&mut g, x, BinOp::Eq, y).unwrap();
    let cond = let_(&mut g, "cond", same).unwrap();
    let sum = binary(&mut g, a, BinOp::Add, b).unwrap();
    let diff = binary(&mut g, a, BinOp::Sub, b).unwrap();
    let picked = ternary(&mut g, cond, sum, diff).unwrap();
    let z = let_(&mut g, "z", picked).unwrap();
    let text = lower_function(&g, &reg, "fragment_stage", &vec![x, y, a, b], &vec![], z).unwrap();
    let cond_name = name_string(&g, cond);
    let z_name = name_string(&g, z);
    let lines: Vec<&str> = text.lines().collect();
    assert_eq!(lines.len(), 5);
    assert_eq!(lines[1], format!("    bool {} = (x_00000001 == y_00000002);", cond_name));
    assert_eq!(
        lines[2],
        format!(
            "    float {} = ({} ? (a_00000003 + b_00000004) : (a_00000003 - b_00000004));",
            z_name, cond_name
        )
    );
    assert_eq!(lines[3], format!("    return {};", z_name));
    assert_eq!(lines[4], "}");
    assert_eq!(count(&text, "(a_00000003 + b_00000004)"), 1);
    assert_eq!(count(&text, "(a_00000003 - b_00000004)"), 1);
}

#[test]
fn shared_literal_is_bound_once() {
    let reg = Registry::new();
    let mut g = Graph::new();
    let a = named(&mut g, "a", 1, scalar(ScalarType::U32));
    let b = named(&mut g, "b", 2, scalar(ScalarType::U32));
    let one = literal(&mut g, Lit::from_u32(1));
    let x = binary(&mut g, a, BinOp::Add, one).unwrap();
    let y = binary(&mut g, b, BinOp::Add, one).unwrap();
    let r = binary(&mut g, x, BinOp::Mul, y).unwrap();
    let text = lower_function(&g, &reg, "f", &vec![a, b], &vec![], r).unwrap();
    assert_eq!(
        text,
        "uint f(uint a_00000001, uint b_00000002) {\n    \
         uint tmp2 = 1u;\n    \
         return ((a_00000001 + tmp2) * (b_00000002 + tmp2));\n}\n"
    );
}

#[test]
fn users_outside_the_function_do_not_count() {
    let reg = Registry::new();
    let mut g = Graph::new();
    let a = named(&mut g, "a", 1, f32_ty());
    let b = named(&mut g, "b", 2, f32_ty());
    let t = binary(&mut g, a, BinOp::Add, b).unwrap();
    let used = binary(&mut g, t, BinOp::Mul, a).unwrap();
    // A second user of `t`, on which the value of the function does not depend.
    let other = binary(&mut g, t, BinOp::Mul, b).unwrap();
    let text = lower_function(&g, &reg, "f", &vec![a, b], &vec![], used).unwrap();
    assert_eq!(
        text,
        "float f(float a_00000001, float b_00000002) {\n    \
         return ((a_00000001 + b_00000002) * a_00000001);\n}\n"
    );
    let scope = analyse(&g, used);
    assert_eq!(scope.reach, vec![true, true, true, true]);
    assert_eq!(scope.shared, vec![true, false, false, false]);
    let scope = analyse(&g, other);
    assert_eq!(scope.reach, vec![true, true, true, false, true]);
}

#[test]
fn nodes_built_later_than_the_root_are_ignored() {
    let reg = Registry::new();
    let mut g = Graph::new();
    let a = named(&mut g, "a", 1, f32_ty());
    let _later = binary(&mut g, a, BinOp::Add, a).unwrap();
    let text = lower_function(&g, &reg, "id", &vec![a], &vec![], a).unwrap();
    assert_eq!(text, "float id(float a_00000001) {\n    return a_00000001;\n}\n");
    let text = lower_function(&g, &reg, "none", &vec![], &vec![a], a).unwrap();
    assert_eq!(text, "float none() {\n    return a_00000001;\n}\n");
}

#[test]
fn chain_of_shared_values_is_bound_in_the_order_of_construction() {
    let reg = Registry::new();
    let mut g = Graph::new();
    let a = named(&mut g, "a", 1, f32_ty());
    let s = binary(&mut g, a, BinOp::Add, a).unwrap();
    let d1 = binary(&mut g, s, BinOp::Mul, a).unwrap();
    let d2 = binary(&mut g, s, BinOp::Div, a).unwrap();
    let t = binary(&mut g, d1, BinOp::Sub, d2).unwrap();
    let e1 = binary(&mut g, t, BinOp::Mul, a).unwrap();
    let e2 = binary(&mut g, t, BinOp::Div, a).unwrap();
    let r = binary(&mut g, e1, BinOp::Sub, e2).unwrap();
    let text = lower_function(&g, &reg, "f", &vec![a], &vec![], r).unwrap();
    assert_eq!(
        text,
        "float f(float a_00000001) {\n    \
         float tmp1 = (a_00000001 + a_00000001);\n    \
         float tmp4 = ((tmp1 * a_00000001) - (tmp1 / a_00000001));\n    \
         return ((tmp4 * a_00000001) - (tmp4 / a_00000001));\n}\n"
    );
}

#[test]
fn fields_calls_and_operators_are_written_in_the_target_language() {
    let mut reg = Registry::new();
    let id = point(&mut reg);
    let mut g = Graph::new();
    let p = named(&mut g, "p", 1, Type::Base(BaseType::Struct(id)));
    let q = named(&mut g, "q", 2, scalar(ScalarType::Bool));
    let x = field(&mut g, &reg, p, "x", f32_ty()).unwrap();
    let s = builtin1(&mut g, "sin", f32_ty(), x).unwrap();
    let zero = builtin(&mut g, "zero", f32_ty(), vec![]).unwrap();
    let m = builtin(&mut g, "mix", f32_ty(), vec![s, zero, x]).unwrap();
    // `x` has three users now and is bound; `s` and `zero` have one each.
    let same = binary(&mut g, m, BinOp::Eq, m).unwrap();
    let both = binary(&mut g, same, BinOp::And, q).unwrap();
    let either = binary(&mut g, both, BinOp::Or, q).unwrap();
    let text = lower_function(&g, &reg, "f", &vec![p, q], &vec![], either).unwrap();
    assert_eq!(
        text,
        "bool f(Point_0 p_00000001, bool q_00000002) {\n    \
         float tmp2 = p_00000001.x;\n    \
         return (((mix(sin(tmp2), zero(), tmp2) == mix(sin(tmp2), zero(), tmp2)) \
         && q_00000002) || q_00000002);\n}\n"
    );
}

#[test]
fn types_are_written_by_their_names() {
    let mut reg = Registry::new();
    let id = point(&mut reg);
    let mut g = Graph::new();
    let types = vec![
        (scalar(ScalarType::Bool), "bool"),
        (scalar(ScalarType::I32), "int"),
        (scalar(ScalarType::U32), "uint"),
        (scalar(ScalarType::F32), "float"),
        (Type::Base(BaseType::Vec2(ScalarType::F32)), "vec2"),
        (Type::Base(BaseType::Vec3(ScalarType::I32)), "ivec3"),
        (Type::Base(BaseType::Vec4(ScalarType::U32)), "uvec4"),
        (Type::Base(BaseType::Vec2(ScalarType::Bool)), "bvec2"),
        (Type::Base(BaseType::Struct(id)), "Point_0"),
        (Type::Base(BaseType::Sampler2d(ScalarType::F32)), "sampler2D"),
        (Type::Base(BaseType::Sampler2d(ScalarType::I32)), "isampler2D"),
        (Type::Base(BaseType::Sampler2d(ScalarType::U32)), "usampler2D"),
        (Type::Array(BaseType::Scalar(ScalarType::F32), 3), "float[3]"),
        (Type::Array(BaseType::Struct(id), 12), "Point_0[12]"),
    ];
    for (ty, name) in types {
        let v = named(&mut g, "v", 7, ty);
        let text = lower_function(&g, &reg, "f", &vec![v], &vec![], v).unwrap();
        assert_eq!(
            text,
            format!("{n} f({n} v_00000007) {{\n    return v_00000007;\n}}\n", n = name)
        );
    }
}

#[test]
fn struct_that_the_registry_does_not_hold_is_refused() {
    let mut reg = Registry::new();
    let id = point(&mut reg);
    let empty = Registry::new();
    let mut g = Graph::new();
    let p = named(&mut g, "p", 1, Type::Base(BaseType::Struct(id)));
    let a = named(&mut g, "a", 2, f32_ty());
    // As the type of the result.
    assert_eq!(lower_function(&g, &empty, "f", &vec![], &vec![p], p), Err(Error::UnregisteredStruct));
    // As the type of a parameter.
    assert_eq!(lower_function(&g, &empty, "f", &vec![p], &vec![], a), Err(Error::UnregisteredStruct));
    // As the type of a binding.
    let q = let_(&mut g, "q", p).unwrap();
    let x = field(&mut g, &reg, q, "x", f32_ty()).unwrap();
    assert_eq!(lower_function(&g, &empty, "f", &vec![], &vec![p], x), Err(Error::UnregisteredStruct));
    assert!(lower_function(&g, &reg, "f", &vec![], &vec![p], x).is_ok());
    // A struct that is not registered is reported before an input that is not declared.
    assert_eq!(lower_function(&g, &empty, "f", &vec![], &vec![], x), Err(Error::UnregisteredStruct));
    assert_eq!(lower_function(&g, &reg, "f", &vec![], &vec![], x), Err(Error::UndeclaredInput));
    assert!(type_known(&reg, Type::Array(BaseType::Struct(id), 2)));
    assert!(!type_known(&empty, Type::Array(BaseType::Struct(id), 2)));
    assert!(type_known(&empty, f32_ty()));
}

#[test]
fn operands_of_nodes() {
    let mut g = Graph::new();
    let a = named(&mut g, "a", 1, f32_ty());
    let c = named(&mut g, "c", 2, scalar(ScalarType::Bool));
    let s = binary(&mut g, a, BinOp::Add, a).unwrap();
    let t = ternary(&mut g, c, a, s).unwrap();
    let v = let_(&mut g, "v", t).unwrap();
    let k = builtin(&mut g, "k", f32_ty(), vec![v, a, s]).unwrap();
    let l = literal(&mut g, Lit::from_bool(true));
    assert_eq!(operand_list(g.node(a)), vec![]);
    assert_eq!(operand_list(g.node(s)), vec![a, a]);
    assert_eq!(operand_list(g.node(t)), vec![c, a, s]);
    assert_eq!(operand_list(g.node(v)), vec![t]);
    assert_eq!(operand_list(g.node(k)), vec![v, a, s]);
    assert_eq!(operand_list(g.node(l)), vec![]);
    assert_eq!(unmarked(3), vec![false, false, false]);
    assert_eq!(unmarked(0), Vec::<bool>::new());
}

#[test]
fn user_function_is_defined_once_before_the_stage() {
    let reg = Registry::new();
    let mut g = Graph::new();
    let p = named(&mut g, "p", 1, f32_ty());
    let q = named(&mut g, "q", 2, f32_ty());
    let body = binary(&mut g, p, BinOp::Mul, q).unwrap();
    let f = define_func(&mut g, "scale", vec![p, q], body).unwrap();
    let a = named(&mut g, "a", 3, f32_ty());
    let first = call(&mut g, f, vec![a, a]).unwrap();
    let second = call(&mut g, f, vec![first, a]).unwrap();
    let name = g.func(f).ident.to_string();
    assert!(name.starts_with("scale_"));

    let mut functions = String::new();
    assert_eq!(write_functions(&g, &reg, &vec![a], second, &mut functions), Ok(()));
    assert_eq!(
        functions,
        format!(
            "float {}(float p_00000001, float q_00000002) {{\n    \
             return (p_00000001 * q_00000002);\n}}\n",
            name
        )
    );
    let one = literal(&mut g, Lit::from_i32(1));
    let def = compile_to_program_def(&g, &reg, &vec![], &vec![], &vec![a], one, second).unwrap();
    let expected_stage = format!(
        "float fragment_stage(float a_00000003) {{\n    \
         return {n}({n}(a_00000003, a_00000003), a_00000003);\n}}\n",
        n = name
    );
    assert_eq!(
        def.fragment_shader_source,
        format!("#version 310 es\nprecision highp float;\n{}{}", functions, expected_stage)
    );
    assert_eq!(count(&def.fragment_shader_source, "(p_00000001 * q_00000002)"), 1);
    let at_def = def.fragment_shader_source.find(&format!("float {}(", name)).unwrap();
    let at_call = def.fragment_shader_source.find(&format!("return {}(", name)).unwrap();
    assert!(at_def < at_call);
}

#[test]
fn function_that_calls_a_function_comes_after_it() {
    let reg = Registry::new();
    let mut g = Graph::new();
    let p = named(&mut g, "p", 1, f32_ty());
    let body = binary(&mut g, p, BinOp::Mul, p).unwrap();
    let square = define_func(&mut g, "square", vec![p], body).unwrap();
    let q = named(&mut g, "q", 2, f32_ty());
    let inner = call(&mut g, square, vec![q]).unwrap();
    let fourth_body = call(&mut g, square, vec![inner]).unwrap();
    let fourth = define_func(&mut g, "fourth", vec![q], fourth_body).unwrap();
    assert!(square.index < fourth.index);
    let a = named(&mut g, "a", 3, f32_ty());
    let top = call(&mut g, fourth, vec![a]).unwrap();
    // The stage calls `fourth` only: `square` is needed because `fourth` calls it.
    assert_eq!(posh::scope::needed_functions(&g, top), vec![true, true]);
    assert_eq!(posh::scope::needed_functions(&g, inner), vec![true, false]);
    assert_eq!(posh::scope::needed_functions(&g, a), vec![false, false]);
    let mut text = String::new();
    write_functions(&g, &reg, &vec![a], top, &mut text).unwrap();
    let mut none = String::new();
    write_functions(&g, &reg, &vec![], a, &mut none).unwrap();
    assert_eq!(none, "");
    let first = g.func(square).ident.to_string();
    let second = g.func(fourth).ident.to_string();
    assert_eq!(
        text,
        format!(
            "float {s}(float p_00000001) {{\n    return (p_00000001 * p_00000001);\n}}\n\
             float {f}(float q_00000002) {{\n    return {s}({s}(q_00000002));\n}}\n",
            s = first,
            f = second
        )
    );
}

#[test]
fn structs_are_declared_in_the_order_of_registration() {
    let mut reg = Registry::new();
    let id = point(&mut reg);
    let outer = StructTy {
        name: "Outer".to_string(),
        fields: vec![
            ("p".to_string(), Type::Base(BaseType::Struct(id))),
            ("w".to_string(), Type::Array(BaseType::Scalar(ScalarType::F32), 2)),
        ],
    };
    reg.register_struct(2, outer).unwrap();
    reg.register_struct(3, StructTy { name: "Point".to_string(), fields: vec![] }).unwrap();
    let mut text = String::from("// structs\n");
    write_structs(&reg, &mut text);
    assert_eq!(
        text,
        "// structs\n\
         struct Point_0 {\n    float x;\n    vec2 y;\n};\n\
         struct Outer_1 {\n    Point_0 p;\n    float[2] w;\n};\n\
         struct Point_2 {\n};\n"
    );
}

fn block(name: &str, arg: &str, ty: Type, location: usize) -> UniformBlockDef {
    UniformBlockDef { block_name: name.to_string(), arg_name: arg.to_string(), ty, location }
}

fn sampler(name: &str, ty: ScalarType, texture_unit: usize) -> UniformSamplerDef {
    UniformSamplerDef { name: name.to_string(), ty, texture_unit }
}

#[test]
fn resources_are_bound_in_the_order_of_their_declaration() {
    let mut reg = Registry::new();
    let id = point(&mut reg);
    let mut g = Graph::new();
    let cam = named(&mut g, "camera", 1, Type::Base(BaseType::Struct(id)));
    let tex = named(&mut g, "tex", 2, Type::Base(BaseType::Sampler2d(ScalarType::F32)));
    let time = named(&mut g, "time", 3, f32_ty());
    let ids = named(&mut g, "ids", 4, Type::Base(BaseType::Sampler2d(ScalarType::U32)));
    let resources = vec![
        ResourceInput { path: "camera".to_string(), var: cam },
        ResourceInput { path: "tex".to_string(), var: tex },
        ResourceInput { path: "time".to_string(), var: time },
        ResourceInput { path: "ids".to_string(), var: ids },
    ];
    let declared = declare_resources(&g, &reg, &resources).unwrap();
    assert_eq!(
        declared.blocks,
        vec![
            block("camera", "camera_00000001", Type::Base(BaseType::Struct(id)), 0),
            block("time", "time_00000003", f32_ty(), 1),
        ]
    );
    assert_eq!(
        declared.samplers,
        vec![
            sampler("tex_00000002", ScalarType::F32, 0),
            sampler("ids_00000004", ScalarType::U32, 1),
        ]
    );
    assert_eq!(
        declared.text,
        "layout(std140, binding = 0) uniform camera {\n    Point_0 camera_00000001;\n};\n\
         layout(binding = 0) uniform sampler2D tex_00000002;\n\
         layout(std140, binding = 1) uniform time {\n    float time_00000003;\n};\n\
         layout(binding = 1) uniform usampler2D ids_00000004;\n"
    );
}

#[test]
fn resources_that_are_no_inputs_are_refused() {
    let mut reg = Registry::new();
    let id = point(&mut reg);
    let mut g = Graph::new();
    let a = named(&mut g, "a", 1, f32_ty());
    let sum = binary(&mut g, a, BinOp::Add, a).unwrap();
    let bound = let_(&mut g, "b", a).unwrap();
    let flags = named(&mut g, "flags", 2, Type::Base(BaseType::Sampler2d(ScalarType::Bool)));
    let many = named(&mut g, "many", 3, Type::Array(BaseType::Sampler2d(ScalarType::F32), 2));
    let p = named(&mut g, "p", 4, Type::Base(BaseType::Struct(id)));
    let res = |var: Trace| vec![ResourceInput { path: "r".to_string(), var }];
    let refusal = |g: &Graph, reg: &Registry, var: Trace| {
        declare_resources(g, reg, &res(var)).map(|d| d.text).unwrap_err()
    };
    assert_eq!(refusal(&g, &reg, sum), Error::InterfaceMismatch);
    assert_eq!(refusal(&g, &reg, bound), Error::InterfaceMismatch);
    assert_eq!(refusal(&g, &reg, Trace { index: 99 }), Error::InterfaceMismatch);
    assert_eq!(refusal(&g, &reg, flags), Error::SamplerType);
    assert_eq!(refusal(&g, &reg, many), Error::SamplerType);
    assert_eq!(refusal(&g, &Registry::new(), p), Error::UnregisteredStruct);
    // The first resource that is refused decides.
    let two = vec![
        ResourceInput { path: "r".to_string(), var: flags },
        ResourceInput { path: "s".to_string(), var: sum },
    ];
    assert_eq!(declare_resources(&g, &reg, &two).map(|d| d.text), Err(Error::SamplerType));
    assert!(is_input_node(&g, a));
    assert!(!is_input_node(&g, sum));
    assert!(!is_input_node(&g, bound));
    assert!(!is_input_node(&g, Trace { index: 99 }));
    assert!(inputs_only(&g, &vec![a, p]));
    assert!(!inputs_only(&g, &vec![a, sum]));
    assert!(inputs_only(&g, &vec![]));
}

fn attr(name: &str, ty: Type, offset: usize) -> VertexAttributeDef {
    VertexAttributeDef { name: name.to_string(), ty, offset }
}

#[test]
fn whole_program() {
    let mut reg = Registry::new();
    let id = point(&mut reg);
    let mut g = Graph::new();
    let cam = named(&mut g, "camera", 1, Type::Base(BaseType::Struct(id)));
    let tex = named(&mut g, "tex", 2, Type::Base(BaseType::Sampler2d(ScalarType::F32)));
    let vx = named(&mut g, "vertex_x", 3, f32_ty());
    let vy = named(&mut g, "vertex_y", 4, vec2());
    let offset = named(&mut g, "instance", 5, vec2());
    let uv = named(&mut g, "uv", 6, vec2());
    let cam_x = field(&mut g, &reg, cam, "x", f32_ty()).unwrap();
    let moved = binary(&mut g, vy, BinOp::Add, offset).unwrap();
    let scaled = builtin(&mut g, "scale", vec2(), vec![moved, cam_x, vx]).unwrap();
    let color =
        builtin(&mut g, "texture", Type::Base(BaseType::Vec4(ScalarType::F32)), vec![tex, uv])
            .unwrap();
    let resources = vec![
        ResourceInput { path: "camera".to_string(), var: cam },
        ResourceInput { path: "tex".to_string(), var: tex },
    ];
    let vertex_inputs = vec![
        VertexInput {
            path: "vertex".to_string(),
            input_rate: VertexInputRate::Vertex,
            ty: Type::Base(BaseType::Struct(id)),
            leaves: vec![vx, vy],
        },
        VertexInput {
            path: "instance".to_string(),
            input_rate: VertexInputRate::Instance,
            ty: vec2(),
            leaves: vec![offset],
        },
    ];
    let def =
        compile_to_program_def(&g, &reg, &resources, &vertex_inputs, &vec![uv], scaled, color)
            .unwrap();
    assert_eq!(
        def.uniform_block_defs,
        vec![block("camera", "camera_00000001", Type::Base(BaseType::Struct(id)), 0)]
    );
    assert_eq!(def.uniform_sampler_defs, vec![sampler("tex_00000002", ScalarType::F32, 0)]);
    assert_eq!(
        def.vertex_defs,
        vec![
            VertexDef {
                input_rate: VertexInputRate::Vertex,
                stride: 16,
                attributes: vec![attr("vertex_x", f32_ty(), 0), attr("vertex_y", vec2(), 8)],
            },
            VertexDef {
                input_rate: VertexInputRate::Instance,
                stride: 8,
                attributes: vec![attr("instance", vec2(), 0)],
            },
        ]
    );
    let common = "#version 310 es\nprecision highp float;\n\
                  struct Point_0 {\n    float x;\n    vec2 y;\n};\n\
                  layout(std140, binding = 0) uniform camera {\n    Point_0 camera_00000001;\n};\n\
                  layout(binding = 0) uniform sampler2D tex_00000002;\n";
    assert_eq!(
        def.vertex_shader_source,
        format!(
            "{}vec2 vertex_stage(float vertex_x_00000003, vec2 vertex_y_00000004, \
             vec2 instance_00000005) {{\n    \
             return scale((vertex_y_00000004 + instance_00000005), camera_00000001.x, \
             vertex_x_00000003);\n}}\n",
            common
        )
    );
    assert_eq!(
        def.fragment_shader_source,
        format!(
            "{}vec4 fragment_stage(vec2 uv_00000006) {{\n    \
             return texture(tex_00000002, uv_00000006);\n}}\n",
            common
        )
    );
    // Compiling again gives the same definition.
    let again =
        compile_to_program_def(&g, &reg, &resources, &vertex_inputs, &vec![uv], scaled, color)
            .unwrap();
    assert_eq!(def, again);
}

#[test]
fn program_with_inputs_made_by_the_library() {
    let mut reg = Registry::new();
    let id = point(&mut reg);
    let ty = Type::Base(BaseType::Struct(id));
    let mut g = Graph::new();
    let leaves = posh::block::vertex_input(&mut g, &reg, ty, "vertex").unwrap();
    let cam = posh::block::uniform_input(&mut g, ty, "camera");
    let out = binary(&mut g, leaves[0], BinOp::Mul, leaves[0]).unwrap();
    let inputs = vec![VertexInput {
        path: "vertex".to_string(),
        input_rate: VertexInputRate::Vertex,
        ty,
        leaves: leaves.clone(),
    }];
    let resources = vec![ResourceInput { path: "camera".to_string(), var: cam }];
    let one = literal(&mut g, Lit::from_i32(1));
    let def = compile_to_program_def(&g, &reg, &resources, &inputs, &vec![], out, one).unwrap();
    let names: Vec<String> = def.vertex_defs[0].attributes.iter().map(|a| a.name.clone()).collect();
    assert_eq!(names, vec!["vertex_x".to_string(), "vertex_y".to_string()]);
    let x = name_string(&g, leaves[0]);
    let y = name_string(&g, leaves[1]);
    assert!(x.starts_with("vertex_x_") && y.starts_with("vertex_y_"));
    assert!(def
        .vertex_shader_source
        .ends_with(&format!("float vertex_stage(float {x}, vec2 {y}) {{\n    return ({x} * {x});\n}}\n")));
    assert_eq!(def.uniform_block_defs[0].arg_name, name_string(&g, cam));
}

#[test]
fn program_is_refused_as_a_whole() {
    let mut reg = Registry::new();
    let id = point(&mut reg);
    let ty = Type::Base(BaseType::Struct(id));
    let mut g = Graph::new();
    let vx = named(&mut g, "vertex_x", 1, f32_ty());
    let vy = named(&mut g, "vertex_y", 2, vec2());
    let wrong_name = named(&mut g, "vertex_z", 3, vec2());
    let wrong_type = named(&mut g, "vertex_y", 4, f32_ty());
    let sum = binary(&mut g, vx, BinOp::Add, vx).unwrap();
    let flags = named(&mut g, "flags", 5, Type::Base(BaseType::Sampler2d(ScalarType::Bool)));
    let arr = Type::Array(BaseType::Scalar(ScalarType::F32), 2);
    let vertex = |ty: Type, leaves: Vec<Trace>| {
        vec![VertexInput {
            path: "vertex".to_string(),
            input_rate: VertexInputRate::Vertex,
            ty,
            leaves,
        }]
    };
    let compile = |g: &Graph,
                   reg: &Registry,
                   resources: Vec<ResourceInput>,
                   inputs: Vec<VertexInput>,
                   interpolants: Vec<Trace>,
                   v: Trace,
                   f: Trace| {
        compile_to_program_def(g, reg, &resources, &inputs, &interpolants, v, f)
            .map(|d| d.vertex_shader_source)
    };
    let none = Trace { index: 1000 };
    assert!(compile(&g, &reg, vec![], vertex(ty, vec![vx, vy]), vec![vx], sum, sum).is_ok());
    assert_eq!(compile(&g, &reg, vec![], vec![], vec![], none, sum), Err(Error::UnknownNode));
    assert_eq!(compile(&g, &reg, vec![], vec![], vec![], sum, none), Err(Error::UnknownNode));
    let bad = vec![ResourceInput { path: "f".to_string(), var: flags }];
    assert_eq!(
        compile(&g, &reg, bad, vertex(arr, vec![]), vec![], sum, sum),
        Err(Error::SamplerType)
    );
    for leaves in [
        vec![vx],
        vec![vx, vy, vy],
        vec![vy, vx],
        vec![vx, wrong_name],
        vec![vx, wrong_type],
        vec![vx, none],
        vec![sum, vy],
    ] {
        assert_eq!(
            compile(&g, &reg, vec![], vertex(ty, leaves), vec![], sum, sum),
            Err(Error::InterfaceMismatch)
        );
    }
    assert_eq!(
        compile(&g, &reg, vec![], vertex(arr, vec![]), vec![], sum, sum),
        Err(Error::ArrayLeaf)
    );
    assert_eq!(
        compile(&g, &reg, vec![], vertex(Type::Base(BaseType::Sampler2d(ScalarType::F32)), vec![]), vec![], sum, sum),
        Err(Error::SamplerLeaf)
    );
    assert_eq!(
        compile(&g, &Registry::new(), vec![], vertex(ty, vec![vx, vy]), vec![], sum, sum),
        Err(Error::UnregisteredStruct)
    );
    assert_eq!(
        compile(&g, &reg, vec![], vec![], vec![sum], sum, sum),
        Err(Error::InterfaceMismatch)
    );
    let p = named(&mut g, "p", 6, ty);
    let one = literal(&mut g, Lit::from_i32(1));
    assert_eq!(
        compile(&g, &Registry::new(), vec![], vec![], vec![p], one, p),
        Err(Error::UnregisteredStruct)
    );
    assert_eq!(
        compile(&g, &Registry::new(), vec![], vec![], vec![], p, one),
        Err(Error::UnregisteredStruct)
    );
    // An input that is used must be a parameter of the stage or a resource.
    assert_eq!(compile(&g, &reg, vec![], vec![], vec![], sum, one), Err(Error::UndeclaredInput));
    assert_eq!(compile(&g, &reg, vec![], vec![], vec![], one, sum), Err(Error::UndeclaredInput));
    assert_eq!(
        compile(&g, &reg, vec![], vertex(ty, vec![vx, vy]), vec![], sum, sum),
        Err(Error::UndeclaredInput)
    );
    let as_resource = vec![ResourceInput { path: "x".to_string(), var: vx }];
    assert!(compile(&g, &reg, as_resource.clone(), vec![], vec![], sum, sum).is_ok());
    assert!(compile(&g, &reg, vec![], vec![], vec![], one, one).is_ok());
    // A function that no stage calls is not looked at ...
    let f = define_func(&mut g, "f", vec![p], sum).unwrap();
    assert_eq!(f.index, 0);
    assert!(compile(&g, &Registry::new(), vec![], vec![], vec![], one, one).is_ok());
    assert!(compile(&g, &reg, vec![], vec![], vec![], one, one).is_ok());
    // ... and a function that a stage calls is checked as the stage is.
    let called = call(&mut g, f, vec![p]).unwrap();
    assert_eq!(
        compile(&g, &Registry::new(), vec![], vec![], vec![p], one, called),
        Err(Error::UnregisteredStruct)
    );
    assert_eq!(
        compile(&g, &reg, vec![], vec![], vec![p], one, called),
        Err(Error::UndeclaredInput)
    );
    assert_eq!(
        compile(&g, &reg, vec![], vec![], vec![p], called, one),
        Err(Error::UndeclaredInput)
    );
    let def = compile_to_program_def(&g, &reg, &as_resource, &vec![], &vec![p], one, called)
        .unwrap();
    let name = g.func(f).ident.to_string();
    // Only the stage that calls the function holds its definition.
    assert_eq!(count(&def.fragment_shader_source, &format!("float {}(", name)), 1);
    assert_eq!(count(&def.vertex_shader_source, &name), 0);
    let declared = declare_vertices(&g, &reg, &vertex(ty, vec![vx, vy])).unwrap();
    assert_eq!(declared.params, vec![vx, vy]);
    assert_eq!(declared.defs.len(), 1);
}

#[test]
fn default_program_is_empty() {
    let def = posh::program_def::ProgramDef::default();
    assert!(def.uniform_block_defs.is_empty());
    assert!(def.uniform_sampler_defs.is_empty());
    assert!(def.vertex_defs.is_empty());
    assert_eq!(def.vertex_shader_source, "");
    assert_eq!(def.fragment_shader_source, "");
}
