use posh::error::Error;
use posh::gl::vertex_data::{
    get_numeric_type, numeric_type_size, numeric_type_to_gl, plan_vertex_data, AttributePointer,
    BufferBinding, NumericType, VertexDataAttributeInfo, VertexDataEntryInfo,
};
use posh::lang::{BaseType, ScalarType, StructId, Type};
use posh::program_def::{VertexAttributeDef, VertexInputRate};

fn attr(name: &str, ty: Type, offset: usize) -> VertexAttributeDef {
    VertexAttributeDef { name: name.to_string(), ty, offset }
}

fn entry(stride: usize, attributes: Vec<VertexAttributeDef>) -> VertexDataEntryInfo {
    VertexDataEntryInfo { input_rate: VertexInputRate::Vertex, stride, attributes }
}

fn buffer(len: usize) -> BufferBinding {
    BufferBinding { context: 7, len }
}

fn f32_ty() -> Type {
    Type::Base(BaseType::Scalar(ScalarType::F32))
}

#[test]
fn codes_of_the_graphics_interface() {
    assert_eq!(numeric_type_to_gl(NumericType::F32), 0x1406);
    assert_eq!(numeric_type_to_gl(NumericType::I32), 0x1404);
    assert_eq!(numeric_type_to_gl(NumericType::U32), 0x1405);
    assert_eq!(numeric_type_size(NumericType::F32), 4);
    assert_eq!(numeric_type_size(NumericType::I32), 4);
    assert_eq!(numeric_type_size(NumericType::U32), 4);
}

#[test]
fn numeric_types_of_components() {
    assert_eq!(get_numeric_type(ScalarType::F32), Ok(NumericType::F32));
    assert_eq!(get_numeric_type(ScalarType::I32), Ok(NumericType::I32));
    assert_eq!(get_numeric_type(ScalarType::U32), Ok(NumericType::U32));
    assert_eq!(get_numeric_type(ScalarType::Bool), Err(Error::BoolLeaf));
}

#[test]
fn attribute_info_of_scalars_and_vectors() {
    let cases = vec![
        (Type::Base(BaseType::Scalar(ScalarType::F32)), NumericType::F32, 1, 4),
        (Type::Base(BaseType::Vec2(ScalarType::I32)), NumericType::I32, 2, 8),
        (Type::Base(BaseType::Vec3(ScalarType::U32)), NumericType::U32, 3, 12),
        (Type::Base(BaseType::Vec4(ScalarType::F32)), NumericType::F32, 4, 16),
    ];
    for (ty, numeric, components, size) in cases {
        let info = VertexDataAttributeInfo::new("a", &ty).unwrap();
        assert_eq!(
            info,
            VertexDataAttributeInfo {
                name: "a".to_string(),
                ty: numeric,
                num_components: components,
                num_locations: 1,
            }
        );
        assert_eq!(info.location_size(), size);
    }
}

#[test]
fn struct_sampler_array_and_bool_are_no_attributes() {
    let refusal = |ty: Type| VertexDataAttributeInfo::new("a", &ty).unwrap_err();
    assert_eq!(refusal(Type::Base(BaseType::Struct(StructId { index: 0 }))), Error::StructLeaf);
    assert_eq!(refusal(Type::Base(BaseType::Sampler2d(ScalarType::F32))), Error::SamplerLeaf);
    assert_eq!(refusal(Type::Array(BaseType::Scalar(ScalarType::F32), 2)), Error::ArrayLeaf);
    assert_eq!(refusal(Type::Base(BaseType::Scalar(ScalarType::Bool))), Error::BoolLeaf);
    assert_eq!(refusal(Type::Base(BaseType::Vec3(ScalarType::Bool))), Error::BoolLeaf);
}

#[test]
fn plan_counts_locations_over_all_buffers() {
    let entries = vec![
        (
            buffer(48),
            entry(
                16,
                vec![
                    attr("x", f32_ty(), 0),
                    attr("y", Type::Base(BaseType::Vec2(ScalarType::F32)), 8),
                ],
            ),
        ),
        (buffer(0), entry(4, vec![])),
        (
            buffer(32),
            VertexDataEntryInfo {
                input_rate: VertexInputRate::Instance,
                stride: 32,
                attributes: vec![
                    attr("i", Type::Base(BaseType::Vec4(ScalarType::I32)), 0),
                    attr("u", Type::Base(BaseType::Vec3(ScalarType::U32)), 20),
                ],
            },
        ),
    ];
    let plan = plan_vertex_data(7, &entries).unwrap();
    let pointer = |binding, index, num_components, ty, data_type, stride, offset| AttributePointer {
        binding,
        index,
        num_components,
        ty,
        data_type,
        stride,
        offset,
    };
    assert_eq!(
        plan,
        vec![
            pointer(0, 0, 1, NumericType::F32, 0x1406, 16, 0),
            pointer(0, 1, 2, NumericType::F32, 0x1406, 16, 8),
            pointer(2, 2, 4, NumericType::I32, 0x1404, 32, 0),
            pointer(2, 3, 3, NumericType::U32, 0x1405, 32, 20),
        ]
    );
    assert_eq!(plan_vertex_data(7, &vec![]), Ok(vec![]));
}

#[test]
fn buffers_that_do_not_fit_are_refused() {
    let good = attr("x", f32_ty(), 0);
    let plan = |entries: Vec<(BufferBinding, VertexDataEntryInfo)>| plan_vertex_data(7, &entries);
    assert_eq!(plan(vec![(buffer(16), entry(0, vec![good.clone()]))]), Err(Error::ZeroStride));
    assert_eq!(plan(vec![(buffer(17), entry(16, vec![good.clone()]))]), Err(Error::BufferLength));
    assert_eq!(
        plan(vec![(BufferBinding { context: 8, len: 16 }, entry(16, vec![good.clone()]))]),
        Err(Error::ForeignBuffer)
    );
    // The attribute ends exactly at the stride: accepted.
    assert!(plan(vec![(buffer(16), entry(16, vec![attr("x", f32_ty(), 12)]))]).is_ok());
    assert_eq!(
        plan(vec![(buffer(16), entry(16, vec![attr("x", f32_ty(), 13)]))]),
        Err(Error::AttributeBeyondStride)
    );
    assert_eq!(
        plan(vec![(buffer(16), entry(16, vec![attr("x", f32_ty(), usize::MAX)]))]),
        Err(Error::AttributeBeyondStride)
    );
    assert_eq!(
        plan(vec![(
            buffer(8),
            entry(8, vec![attr("v", Type::Base(BaseType::Vec4(ScalarType::F32)), 0)])
        )]),
        Err(Error::AttributeBeyondStride)
    );
    let refused = |ty: Type| plan(vec![(buffer(64), entry(64, vec![good.clone(), attr("a", ty, 0)]))]);
    assert_eq!(
        refused(Type::Base(BaseType::Struct(StructId { index: 0 }))),
        Err(Error::StructLeaf)
    );
    assert_eq!(refused(Type::Base(BaseType::Sampler2d(ScalarType::I32))), Err(Error::SamplerLeaf));
    assert_eq!(refused(Type::Array(BaseType::Scalar(ScalarType::F32), 1)), Err(Error::ArrayLeaf));
    assert_eq!(refused(Type::Base(BaseType::Vec2(ScalarType::Bool))), Err(Error::BoolLeaf));
    // The first buffer that does not fit decides.
    assert_eq!(
        plan(vec![
            (buffer(16), entry(16, vec![good.clone()])),
            (buffer(5), entry(4, vec![good.clone()])),
            (buffer(16), entry(0, vec![])),
        ]),
        Err(Error::BufferLength)
    );
    // Within a buffer the stride is looked at before the length and the owner.
    assert_eq!(
        plan(vec![(BufferBinding { context: 8, len: 17 }, entry(0, vec![]))]),
        Err(Error::ZeroStride)
    );
    assert_eq!(
        plan(vec![(BufferBinding { context: 8, len: 17 }, entry(16, vec![]))]),
        Err(Error::BufferLength)
    );
}
