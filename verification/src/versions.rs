//! Version handling for the inspector's renderer: parsing the version
//! strings a graphics driver reports, ordering parsed versions, and the
//! capability predicates and shader-version selection built on them.
//!
//! Version strings are documented to be in the form
//! `<major>.<minor>[.<release>][ <vendor specific information>]`
//! for full-fat OpenGL, and
//! `OpenGL ES <major>.<minor>[.<release>][ <vendor specific information>]`
//! for OpenGL ES. Parsing splits on non-digit characters and reads the
//! first two fields; a missing, empty, or out-of-range field reads as 0.

use vstd::prelude::*;
use crate::text::{spec_decimal, to_decimal};

verus! {

/// A decimal digit, `'0'` through `'9'`.
pub open spec fn is_decimal_digit(c: char) -> bool {
    48 <= c as u32 <= 57
}

/// The end of the run of decimal digits that starts at `from`: the first
/// index at or after `from` holding a non-digit, or the length.
pub open spec fn digit_run_end(s: Seq<char>, from: int) -> int
    decreases s.len() - from when 0 <= from <= s.len()
{
    if from < s.len() && is_decimal_digit(s[from]) {
        digit_run_end(s, from + 1)
    } else {
        from
    }
}

/// Bounds and content of a digit run: it starts where it starts, ends at a
/// non-digit or the end of the sequence, and holds digits throughout.
pub proof fn lemma_digit_run_end(s: Seq<char>, from: int)
    requires
        0 <= from <= s.len(),
    ensures
        from <= digit_run_end(s, from) <= s.len(),
        forall|j: int| from <= j < digit_run_end(s, from) ==> is_decimal_digit(#[trigger] s[j]),
        digit_run_end(s, from) < s.len() ==> !is_decimal_digit(s[digit_run_end(s, from)]),
    decreases s.len() - from,
{
    if from < s.len() && is_decimal_digit(s[from]) {
        lemma_digit_run_end(s, from + 1);
    }
}

/// The value of a sequence of decimal digits, most significant first.
pub open spec fn spec_digits_value(s: Seq<char>) -> int
    decreases s.len(),
{
    if s.len() == 0 {
        0
    } else {
        spec_digits_value(s.drop_last()) * 10 + (s.last() as u32 - 48)
    }
}

/// What one `<major>` or `<minor>` field of a version string parses to: the
/// value of its digits, or 0 when the field is empty or does not fit the
/// field's 16-bit range.
pub open spec fn spec_component(s: Seq<char>) -> u16 {
    if s.len() == 0 || spec_digits_value(s) > 65535 || spec_digits_value(s) < 0 {
        0u16
    } else {
        spec_digits_value(s) as u16
    }
}

/// `p` is a prefix of `s`.
pub open spec fn spec_has_prefix(s: Seq<char>, p: Seq<char>) -> bool {
    s.len() >= p.len() && s.subrange(0, p.len() as int) == p
}

/// The (major, minor) fields of a version string with any vendor prefix
/// already stripped: the first two runs of digits, split at the first
/// non-digit; a missing second field reads as 0.
pub open spec fn spec_major_minor(t: Seq<char>) -> (u16, u16) {
    let e1 = digit_run_end(t, 0);
    let major = spec_component(t.subrange(0, e1));
    let minor = if e1 == t.len() {
        0u16
    } else {
        spec_component(t.subrange(e1 + 1, digit_run_end(t, e1 + 1)))
    };
    (major, minor)
}

/// Whether `prefix` starts `s`.
fn str_has_prefix(s: &str, prefix: &str) -> (r: bool)
    ensures
        r == spec_has_prefix(s@, prefix@),
{
    let n = prefix.unicode_len();
    let sn = s.unicode_len();
    if sn < n {
        return false;
    }
    let mut i: usize = 0;
    while i < n
        invariant
            n == prefix@.len(),
            sn == s@.len(),
            sn >= n,
            i <= n,
            forall|j: int| 0 <= j < i ==> s@[j] == prefix@[j],
        decreases n - i,
    {
        if s.get_char(i) != prefix.get_char(i) {
            return false;
        }
        i = i + 1;
    }
    proof {
        assert(s@.subrange(0, n as int) =~= prefix@);
    }
    true
}

/// Whether a character is a decimal digit.
fn is_digit_char(c: char) -> (r: bool)
    ensures
        r == is_decimal_digit(c),
{
    let u = c as u32;
    48 <= u && u <= 57
}

/// The end of the digit run of `s` that starts at `from`.
fn scan_digit_run(s: &str, from: usize) -> (r: usize)
    requires
        from <= s@.len(),
    ensures
        r == digit_run_end(s@, from as int),
        from <= r <= s@.len(),
{
    let n = s.unicode_len();
    let mut i: usize = from;
    while i < n && is_digit_char(s.get_char(i))
        invariant
            n == s@.len(),
            from <= i <= n,
            digit_run_end(s@, from as int) == digit_run_end(s@, i as int),
        decreases n - i,
    {
        i = i + 1;
    }
    proof {
        lemma_digit_run_end(s@, from as int);
    }
    i
}

/// Parse the digit run `s[from..to]` as one version field.
fn parse_component(s: &str, from: usize, to: usize) -> (r: u16)
    requires
        from <= to <= s@.len(),
        forall|j: int| from <= j < to ==> is_decimal_digit(#[trigger] s@[j]),
    ensures
        r == spec_component(s@.subrange(from as int, to as int)),
{
    let ghost sub = s@.subrange(from as int, to as int);
    let mut acc: u64 = 0;
    let mut overflowed: bool = false;
    let mut i: usize = from;
    while i < to
        invariant
            from <= i <= to <= s@.len(),
            sub == s@.subrange(from as int, to as int),
            forall|j: int| from <= j < to ==> is_decimal_digit(#[trigger] s@[j]),
            overflowed == (spec_digits_value(s@.subrange(from as int, i as int)) > 65535),
            !overflowed ==> acc == spec_digits_value(s@.subrange(from as int, i as int)),
            acc <= 65535,
        decreases to - i,
    {
        let ghost seen = s@.subrange(from as int, i as int);
        let c = s.get_char(i);
        let d: u64 = (c as u32 - 48) as u64;
        proof {
            assert(is_decimal_digit(s@[i as int]));
            assert(s@.subrange(from as int, i + 1 as int).drop_last() =~= seen);
            assert(s@.subrange(from as int, i + 1 as int).last() == s@[i as int]);
        }
        if overflowed {
            proof {
                assert(spec_digits_value(seen) > 65535);
                assert(spec_digits_value(seen) * 10 + (c as u32 - 48) > 65535);
            }
        } else {
            let next: u64 = acc * 10 + d;
            if next > 65535 {
                overflowed = true;
            } else {
                acc = next;
            }
        }
        i = i + 1;
    }
    if overflowed || from == to {
        0
    } else {
        proof {
            assert(sub.len() > 0);
        }
        acc as u16
    }
}

/// Parse the (major, minor) fields of a version string whose vendor prefix,
/// if any, has been stripped.
fn parse_major_minor(t: &str) -> (r: (u16, u16))
    ensures
        r == spec_major_minor(t@),
{
    proof {
        lemma_digit_run_end(t@, 0);
    }
    let e1 = scan_digit_run(t, 0);
    let major = parse_component(t, 0, e1);
    let len = t.unicode_len();
    let minor: u16 = if e1 == len {
        0
    } else {
        proof {
            lemma_digit_run_end(t@, e1 + 1);
        }
        let e2 = scan_digit_run(t, e1 + 1);
        parse_component(t, e1 + 1, e2)
    };
    (major, minor)
}

/// What a `GL_VERSION` string parses to: the variant prefix decides the
/// flavour, the first two digit fields after it give major and minor.
pub open spec fn spec_parse_gl_version(s: Seq<char>) -> GlVersion {
    let gles = spec_has_prefix(s, "OpenGL ES "@);
    let t = if gles {
        s.skip("OpenGL ES "@.len() as int)
    } else {
        s
    };
    GlVersion { major: spec_major_minor(t).0, minor: spec_major_minor(t).1, is_gles: gles }
}

/// What a `GL_SHADING_LANGUAGE_VERSION` string parses to; a minor field
/// reported with two digits is scaled down to one.
pub open spec fn spec_parse_glsl_version(s: Seq<char>) -> GlslVersion {
    let gles = spec_has_prefix(s, "OpenGL ES GLSL ES "@);
    let t = if gles {
        s.skip("OpenGL ES GLSL ES "@.len() as int)
    } else {
        s
    };
    let minor0 = spec_major_minor(t).1;
    GlslVersion {
        major: spec_major_minor(t).0,
        minor: if minor0 >= 10 {
            (minor0 / 10) as u16
        } else {
            minor0
        },
        is_gles: gles,
    }
}

/// How two versions of the same flavour order: by major, then minor.
/// Versions of different flavours do not compare.
pub open spec fn spec_version_cmp(a: GlVersion, b: GlVersion) -> Option<core::cmp::Ordering> {
    if a.is_gles == b.is_gles {
        if a.major < b.major {
            Some(core::cmp::Ordering::Less)
        } else if a.major > b.major {
            Some(core::cmp::Ordering::Greater)
        } else if a.minor < b.minor {
            Some(core::cmp::Ordering::Less)
        } else if a.minor > b.minor {
            Some(core::cmp::Ordering::Greater)
        } else {
            Some(core::cmp::Ordering::Equal)
        }
    } else {
        None
    }
}

/// `a` is at least `b`: same flavour, and no earlier by (major, minor).
pub open spec fn spec_at_least(a: GlVersion, b: GlVersion) -> bool {
    a.is_gles == b.is_gles && (a.major > b.major || (a.major == b.major && a.minor >= b.minor))
}

/// An OpenGL (or OpenGL ES) version as the driver reports it.
#[derive(Clone, Copy, Debug, PartialEq, Eq, Structural)]
pub struct GlVersion {
    pub major: u16,
    pub minor: u16,
    pub is_gles: bool,
}

impl GlVersion {
    /// A full-fat OpenGL version.
    pub fn gl(major: u16, minor: u16) -> (r: Self)
        ensures
            r == (GlVersion { major, minor, is_gles: false }),
    {
        Self { major, minor, is_gles: false }
    }

    /// An OpenGL ES version.
    pub fn gles(major: u16, minor: u16) -> (r: Self)
        ensures
            r == (GlVersion { major, minor, is_gles: true }),
    {
        Self { major, minor, is_gles: true }
    }

    /// Parse the version string queried from the driver via the `GL_VERSION`
    /// enum. Examples based on strings found in the wild: `"4.6.0 NVIDIA
    /// 465.27"` reads as OpenGL 4.6, `"OpenGL ES 3.2 NVIDIA 465.27"` as
    /// OpenGL ES 3.2.
    pub fn parse(gl_version_string: &str) -> (r: Self)
        ensures
            r == spec_parse_gl_version(gl_version_string@),
    {
        let is_gles = str_has_prefix(gl_version_string, "OpenGL ES ");
        let (major, minor) = if is_gles {
            proof {
                reveal_strlit("OpenGL ES ");
            }
            let len = gl_version_string.unicode_len();
            let rest = gl_version_string.substring_char(10, len);
            proof {
                assert(rest@ =~= gl_version_string@.skip("OpenGL ES "@.len() as int));
            }
            parse_major_minor(rest)
        } else {
            parse_major_minor(gl_version_string)
        };
        Self { major, minor, is_gles }
    }

    /// Debug messages are provided by `glDebugMessageInsert`, which is only
    /// present in OpenGL >= 4.3.
    pub fn debug_message_insert_support(self) -> (r: bool)
        ensures
            r == spec_at_least(self, GlVersion { major: 4, minor: 3, is_gles: false }),
    {
        self >= Self::gl(4, 3)
    }

    /// Vertex array binding is provided by `glBindVertexArray`, which is
    /// not present in OpenGL (ES) < 3.0.
    pub fn bind_vertex_array_support(self) -> (r: bool)
        ensures
            r == (self.major >= 3),
    {
        self.major >= 3
    }

    /// Vertex offset support is provided by `glDrawElementsBaseVertex`,
    /// which is only present from OpenGL 3.2 and above.
    pub fn vertex_offset_support(self) -> (r: bool)
        ensures
            r == spec_at_least(self, GlVersion { major: 3, minor: 2, is_gles: false }),
    {
        self >= Self::gl(3, 2)
    }

    /// Vertex arrays (e.g. `glBindVertexArray`) are supported from OpenGL
    /// 3.0 and OpenGL ES 3.0.
    pub fn vertex_array_support(self) -> (r: bool)
        ensures
            r == (spec_at_least(self, GlVersion { major: 3, minor: 0, is_gles: false })
                || spec_at_least(self, GlVersion { major: 3, minor: 0, is_gles: true })),
    {
        self >= Self::gl(3, 0) || self >= Self::gles(3, 0)
    }

    /// Separate binding of samplers (`glBindSampler`) is supported from
    /// OpenGL 3.2 or ES 3.0.
    pub fn bind_sampler_support(self) -> (r: bool)
        ensures
            r == (spec_at_least(self, GlVersion { major: 3, minor: 2, is_gles: false })
                || spec_at_least(self, GlVersion { major: 3, minor: 0, is_gles: true })),
    {
        self >= GlVersion::gl(3, 2) || self >= GlVersion::gles(3, 0)
    }

    /// Setting the clip origin (`GL_CLIP_ORIGIN`) is supported from
    /// OpenGL 4.5.
    pub fn clip_origin_support(self) -> (r: bool)
        ensures
            r == spec_at_least(self, GlVersion { major: 4, minor: 5, is_gles: false }),
    {
        self >= GlVersion::gl(4, 5)
    }

    /// Polygon mode is a full-fat OpenGL feature.
    pub fn polygon_mode_support(self) -> (r: bool)
        ensures
            r == !self.is_gles,
    {
        !self.is_gles
    }

    /// Primitive restart is supported from OpenGL 3.1.
    pub fn primitive_restart_support(self) -> (r: bool)
        ensures
            r == spec_at_least(self, GlVersion { major: 3, minor: 1, is_gles: false }),
    {
        self >= GlVersion::gl(3, 1)
    }
}

impl PartialOrd for GlVersion {
    /// Versions of the same flavour order by major, then minor; a full-fat
    /// version and an ES version do not compare.
    fn partial_cmp(&self, other: &Self) -> (r: Option<core::cmp::Ordering>)
        ensures
            r == spec_version_cmp(*self, *other),
    {
        if self.is_gles == other.is_gles {
            Some(
                if self.major < other.major {
                    core::cmp::Ordering::Less
                } else if self.major > other.major {
                    core::cmp::Ordering::Greater
                } else if self.minor < other.minor {
                    core::cmp::Ordering::Less
                } else if self.minor > other.minor {
                    core::cmp::Ordering::Greater
                } else {
                    core::cmp::Ordering::Equal
                },
            )
        } else {
            None
        }
    }
}

impl vstd::std_specs::cmp::PartialOrdSpecImpl for GlVersion {
    open spec fn obeys_partial_cmp_spec() -> bool {
        true
    }

    open spec fn partial_cmp_spec(&self, other: &Self) -> Option<core::cmp::Ordering> {
        spec_version_cmp(*self, *other)
    }
}

/// A GLSL (or GLSL ES) shading-language version as the driver reports it.
#[derive(Clone, Copy, Debug, PartialEq, Eq, Structural)]
pub struct GlslVersion {
    pub major: u16,
    pub minor: u16,
    pub is_gles: bool,
}

impl GlslVersion {
    /// Parse the version string queried from the driver via the
    /// `GL_SHADING_LANGUAGE_VERSION` enum. The minor version has been
    /// observed specified as both a single- and a double-digit version;
    /// a double-digit minor is scaled down to its leading digit.
    pub fn parse(gl_shading_language_version: &str) -> (r: Self)
        ensures
            r == spec_parse_glsl_version(gl_shading_language_version@),
    {
        let is_gles = str_has_prefix(gl_shading_language_version, "OpenGL ES GLSL ES ");
        let (major, minor) = if is_gles {
            proof {
                reveal_strlit("OpenGL ES GLSL ES ");
            }
            let len = gl_shading_language_version.unicode_len();
            let rest = gl_shading_language_version.substring_char(18, len);
            proof {
                assert(rest@ =~= gl_shading_language_version@.skip(
                    "OpenGL ES GLSL ES "@.len() as int,
                ));
            }
            parse_major_minor(rest)
        } else {
            parse_major_minor(gl_shading_language_version)
        };
        let minor: u16 = if minor >= 10 {
            minor / 10
        } else {
            minor
        };
        Self { major, minor, is_gles }
    }
}

/// Shader setup failures. All messages are plain strings: the driver's own
/// logs for compile and link failures, a rendered version for a context too
/// old to host the renderer's shaders.
#[derive(Clone, Debug, PartialEq, Eq)]
pub enum ShaderError {
    IncompatibleVersion(String),
    CreateShader(String),
    CreateProgram(String),
    CompileShader(String),
    LinkProgram(String),
    UniformNotFound(String),
    AttributeNotFound(String),
}

/// Renderer initialisation failures.
#[derive(Clone, Debug, PartialEq, Eq)]
pub enum InitError {
    Shader(ShaderError),
    CreateBufferObject(String),
    CreateTexture(String),
    RegisterTexture,
    UserError(String),
}

impl From<ShaderError> for InitError {
    /// A shader failure during initialisation is an initialisation failure.
    fn from(error: ShaderError) -> (r: Self) {
        Self::Shader(error)
    }
}

impl vstd::std_specs::convert::FromSpecImpl<ShaderError> for InitError {
    open spec fn obeys_from_spec() -> bool {
        true
    }

    open spec fn from_spec(error: ShaderError) -> Self {
        Self::Shader(error)
    }
}

/// The lowest common denominator of the context's version and the shading
/// language's version: ES when either is ES, and the earlier of the two
/// (major, minor) pairs.
pub open spec fn spec_common_version(gl: GlVersion, glsl: GlslVersion) -> (u16, u16, bool) {
    let is_gles = gl.is_gles || glsl.is_gles;
    if gl.major < glsl.major || (gl.major == glsl.major && gl.minor < glsl.minor) {
        (gl.major, gl.minor, is_gles)
    } else {
        (glsl.major, glsl.minor, is_gles)
    }
}

/// Whether the renderer's shaders can be hosted at this common version:
/// they need OpenGL 3.0, or OpenGL ES 2.0, or higher.
pub open spec fn spec_version_compatible(major: u16, is_gles: bool) -> bool {
    if is_gles {
        major >= 2
    } else {
        major >= 3
    }
}

/// The message reported for a context too old to host the shaders.
pub open spec fn spec_incompatible_message(major: u16, minor: u16, is_gles: bool) -> Seq<char> {
    if is_gles {
        "shaders need OpenGL 3.0 or OpenGL ES 2.0 or higher, found: "@ + "ES "@ + spec_decimal(
            major as int,
        ) + "."@ + spec_decimal(minor as int)
    } else {
        "shaders need OpenGL 3.0 or OpenGL ES 2.0 or higher, found: "@ + spec_decimal(major as int)
            + "."@ + spec_decimal(minor as int)
    }
}

/// Pick the shader version for a context: the lowest common denominator of
/// the context's and the shading language's versions, exactly when it can
/// host the renderer's shaders; a version too old is reported, rendered in
/// the error's message.
pub fn common_shader_version(gl_version: GlVersion, glsl_version: GlslVersion) -> (r: Result<
    (u16, u16, bool),
    ShaderError,
>)
    ensures
        r is Ok <==> spec_version_compatible(
            spec_common_version(gl_version, glsl_version).0,
            spec_common_version(gl_version, glsl_version).2,
        ),
        r matches Ok(v) ==> v == spec_common_version(gl_version, glsl_version),
        (r matches Err(e) ==> e matches ShaderError::IncompatibleVersion(msg) && msg@
            == spec_incompatible_message(
            spec_common_version(gl_version, glsl_version).0,
            spec_common_version(gl_version, glsl_version).1,
            spec_common_version(gl_version, glsl_version).2,
        )),
{
    let is_gles = gl_version.is_gles || glsl_version.is_gles;
    let (major, minor): (u16, u16) = if gl_version.major < glsl_version.major || (gl_version.major
        == glsl_version.major && gl_version.minor < glsl_version.minor) {
        (gl_version.major, gl_version.minor)
    } else {
        (glsl_version.major, glsl_version.minor)
    };
    let compatible = if is_gles {
        major >= 2
    } else {
        major >= 3
    };
    if compatible {
        Ok((major, minor, is_gles))
    } else {
        let mut msg = String::from_str("shaders need OpenGL 3.0 or OpenGL ES 2.0 or higher, found: ");
        if is_gles {
            msg.append("ES ");
        }
        let major_str = to_decimal(major as u64);
        msg.append(major_str.as_str());
        msg.append(".");
        let minor_str = to_decimal(minor as u64);
        msg.append(minor_str.as_str());
        Err(ShaderError::IncompatibleVersion(msg))
    }
}

/// The number of the `#version` directive that a chosen (major, minor)
/// shading-language version asks for.
pub fn version_directive_number(major: u16, minor: u16) -> (r: u32)
    ensures
        r == major * 100 + minor * 10,
{
    (major as u32) * 100 + (minor as u32) * 10
}

} // verus!
