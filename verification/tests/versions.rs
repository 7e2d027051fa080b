use hothost::text::to_decimal;
use hothost::versions::{
    common_shader_version, version_directive_number, GlVersion, GlslVersion, ShaderError,
};
use std::cmp::Ordering;

#[test]
fn parse_reads_a_full_fat_version_string() {
    let version = GlVersion::parse("4.6.0 NVIDIA 465.27");
    assert!(!version.is_gles);
    assert_eq!(version.major, 4);
    assert_eq!(version.minor, 6);
}

#[test]
fn parse_reads_an_es_version_string() {
    let version = GlVersion::parse("OpenGL ES 3.2 NVIDIA 465.27");
    assert!(version.is_gles);
    assert_eq!(version.major, 3);
    assert_eq!(version.minor, 2);
}

#[test]
fn parse_reads_missing_fields_as_zero() {
    let empty = GlVersion::parse("");
    assert_eq!((empty.major, empty.minor, empty.is_gles), (0, 0, false));
    let garbage = GlVersion::parse("mesa driver");
    assert_eq!((garbage.major, garbage.minor), (0, 0));
    let only_major = GlVersion::parse("4");
    assert_eq!((only_major.major, only_major.minor), (4, 0));
    let leading_junk = GlVersion::parse("a4.6");
    assert_eq!((leading_junk.major, leading_junk.minor), (0, 4));
}

#[test]
fn parse_reads_an_oversized_field_as_zero() {
    let version = GlVersion::parse("99999.1");
    assert_eq!((version.major, version.minor), (0, 1));
    let in_range = GlVersion::parse("65535.2");
    assert_eq!((in_range.major, in_range.minor), (65535, 2));
}

#[test]
fn glsl_parse_scales_a_two_digit_minor_down() {
    let version = GlslVersion::parse("4.60 NVIDIA");
    assert!(!version.is_gles);
    assert_eq!((version.major, version.minor), (4, 6));
    let single = GlslVersion::parse("1.4");
    assert_eq!((single.major, single.minor), (1, 4));
}

#[test]
fn glsl_parse_reads_an_es_version_string() {
    let version = GlslVersion::parse("OpenGL ES GLSL ES 3.20");
    assert!(version.is_gles);
    assert_eq!((version.major, version.minor), (3, 2));
}

#[test]
fn versions_of_one_flavour_order_by_major_then_minor() {
    assert_eq!(GlVersion::gl(3, 2).partial_cmp(&GlVersion::gl(4, 0)), Some(Ordering::Less));
    assert_eq!(GlVersion::gl(4, 1).partial_cmp(&GlVersion::gl(4, 0)), Some(Ordering::Greater));
    assert_eq!(GlVersion::gl(4, 1).partial_cmp(&GlVersion::gl(4, 1)), Some(Ordering::Equal));
    assert_eq!(GlVersion::gles(3, 0).partial_cmp(&GlVersion::gles(3, 1)), Some(Ordering::Less));
}

#[test]
fn versions_of_different_flavours_do_not_compare() {
    assert_eq!(GlVersion::gl(4, 6).partial_cmp(&GlVersion::gles(3, 0)), None);
    assert!(!(GlVersion::gl(4, 6) >= GlVersion::gles(3, 0)));
}

#[test]
fn support_predicates_follow_the_documented_cutoffs() {
    assert!(GlVersion::gl(4, 3).debug_message_insert_support());
    assert!(!GlVersion::gl(4, 2).debug_message_insert_support());
    assert!(!GlVersion::gles(4, 3).debug_message_insert_support());

    assert!(GlVersion::gl(3, 0).bind_vertex_array_support());
    assert!(GlVersion::gles(3, 0).bind_vertex_array_support());
    assert!(!GlVersion::gl(2, 1).bind_vertex_array_support());

    assert!(GlVersion::gl(3, 2).vertex_offset_support());
    assert!(!GlVersion::gl(3, 1).vertex_offset_support());

    assert!(GlVersion::gl(3, 0).vertex_array_support());
    assert!(GlVersion::gles(3, 0).vertex_array_support());
    assert!(!GlVersion::gles(2, 0).vertex_array_support());

    assert!(GlVersion::gl(3, 2).bind_sampler_support());
    assert!(GlVersion::gles(3, 0).bind_sampler_support());
    assert!(!GlVersion::gl(3, 1).bind_sampler_support());

    assert!(GlVersion::gl(4, 5).clip_origin_support());
    assert!(!GlVersion::gl(4, 4).clip_origin_support());

    assert!(GlVersion::gl(1, 0).polygon_mode_support());
    assert!(!GlVersion::gles(3, 2).polygon_mode_support());

    assert!(GlVersion::gl(3, 1).primitive_restart_support());
    assert!(!GlVersion::gl(3, 0).primitive_restart_support());
}

#[test]
fn common_shader_version_takes_the_earlier_pair() {
    let picked = common_shader_version(
        GlVersion::gl(4, 6),
        GlslVersion { major: 4, minor: 5, is_gles: false },
    );
    assert_eq!(picked, Ok((4, 5, false)));
    let other_way = common_shader_version(
        GlVersion::gl(3, 1),
        GlslVersion { major: 4, minor: 5, is_gles: false },
    );
    assert_eq!(other_way, Ok((3, 1, false)));
}

#[test]
fn common_shader_version_is_es_when_either_side_is() {
    let picked = common_shader_version(
        GlVersion::gles(3, 1),
        GlslVersion { major: 3, minor: 0, is_gles: false },
    );
    assert_eq!(picked, Ok((3, 0, true)));
}

#[test]
fn a_version_too_old_is_reported_with_its_numbers() {
    let picked = common_shader_version(
        GlVersion::gl(2, 1),
        GlslVersion { major: 2, minor: 0, is_gles: false },
    );
    assert_eq!(
        picked,
        Err(ShaderError::IncompatibleVersion(String::from(
            "shaders need OpenGL 3.0 or OpenGL ES 2.0 or higher, found: 2.0"
        )))
    );
    let es = common_shader_version(
        GlVersion::gles(1, 1),
        GlslVersion { major: 1, minor: 0, is_gles: true },
    );
    assert_eq!(
        es,
        Err(ShaderError::IncompatibleVersion(String::from(
            "shaders need OpenGL 3.0 or OpenGL ES 2.0 or higher, found: ES 1.0"
        )))
    );
}

#[test]
fn decimal_rendering_is_exact() {
    assert_eq!(to_decimal(0), "0");
    assert_eq!(to_decimal(7), "7");
    assert_eq!(to_decimal(42), "42");
    assert_eq!(to_decimal(65535), "65535");
    assert_eq!(to_decimal(1000), "1000");
}

#[test]
fn version_directive_number_is_major_hundreds_plus_minor_tens() {
    assert_eq!(version_directive_number(4, 5), 450);
    assert_eq!(version_directive_number(3, 0), 300);
    assert_eq!(version_directive_number(1, 4), 140);
}
