//! Expansion of shader templates.
//!
//! Shader sources may contain the template variable `{{version}}`, which is
//! replaced by the GLSL version line of the device's OpenGL dialect. Any
//! other `{{...}}` is an error, as is a `{{` that is never closed by `}}`.

use vstd::prelude::*;
use crate::device::GLDevice;
use vstd::string::StringSliceAdditionalSpecFns;

verus! {

/// Why a shader template cannot be expanded.
#[derive(Clone, Copy, Debug, PartialEq, Eq, Structural)]
pub enum TemplateError {
    /// A `{{` with no `}` anywhere after it.
    MissingClosingBrace,
    /// The first `}` after a `{{`, at index `close`, is not followed by
    /// another `}`.
    UnterminatedVariable { close: usize },
    /// The name between `{{` and `}}`, at indices `start..end`, is not
    /// `version`.
    UnknownVariable { start: usize, end: usize },
}

/// The byte `{`.
pub const OPEN_BRACE: u8 = 0x7B;

/// The byte `}`.
pub const CLOSE_BRACE: u8 = 0x7D;

/// The bytes of the only template variable, `version`.
pub open spec fn version_ident() -> Seq<u8> {
    seq![0x76u8, 0x65u8, 0x72u8, 0x73u8, 0x69u8, 0x6Fu8, 0x6Eu8]
}

/// The index of the first `}` in `src` at or after `j`, or `src.len()` when
/// there is none.
pub open spec fn first_close_brace(src: Seq<u8>, j: int) -> int
    decreases src.len() - j,
{
    if j >= src.len() {
        src.len() as int
    } else if src[j] == CLOSE_BRACE {
        j
    } else {
        first_close_brace(src, j + 1)
    }
}

pub proof fn lemma_first_close_brace(src: Seq<u8>, j: int)
    requires
        j <= src.len(),
    ensures
        j <= first_close_brace(src, j) <= src.len(),
        first_close_brace(src, j) < src.len() ==> src[first_close_brace(src, j)] == CLOSE_BRACE,
        forall|k: int| j <= k < first_close_brace(src, j) ==> src[k] != CLOSE_BRACE,
    decreases src.len() - j,
{
    if j < src.len() && src[j] != CLOSE_BRACE {
        lemma_first_close_brace(src, j + 1);
    }
}

/// Whether a template variable starts at index `i` of `src`.
pub open spec fn opens_variable(src: Seq<u8>, i: int) -> bool {
    0 <= i && i + 1 < src.len() && src[i] == OPEN_BRACE && src[i + 1] == OPEN_BRACE
}

/// The expansion of `src` from index `i` on, with `version` in place of each
/// `{{version}}`.
pub open spec fn expand_from(src: Seq<u8>, i: int, version: Seq<u8>) -> Result<
    Seq<u8>,
    TemplateError,
>
    decreases src.len() - i,
{
    if i < 0 || i >= src.len() {
        Ok(Seq::empty())
    } else if opens_variable(src, i) {
        let e = first_close_brace(src, i + 2);
        if e >= src.len() {
            Err(TemplateError::MissingClosingBrace)
        } else if e + 1 >= src.len() || src[e + 1] != CLOSE_BRACE {
            Err(TemplateError::UnterminatedVariable { close: e as usize })
        } else if src.subrange(i + 2, e) != version_ident() {
            Err(TemplateError::UnknownVariable { start: (i + 2) as usize, end: e as usize })
        } else {
            proof {
                lemma_first_close_brace(src, i + 2);
            }
            match expand_from(src, e + 2, version) {
                Ok(rest) => Ok(version + rest),
                Err(err) => Err(err),
            }
        }
    } else {
        match expand_from(src, i + 1, version) {
            Ok(rest) => Ok(seq![src[i]] + rest),
            Err(err) => Err(err),
        }
    }
}

/// The expansion of the whole template `src`.
pub open spec fn expand_template(src: Seq<u8>, version: Seq<u8>) -> Result<Seq<u8>, TemplateError> {
    expand_from(src, 0, version)
}

/// Whether `src` expands from index `i` on, and if not, why not.
pub open spec fn status_from(src: Seq<u8>, i: int) -> Result<(), TemplateError> {
    match expand_from(src, i, Seq::empty()) {
        Ok(_) => Ok(()),
        Err(err) => Err(err),
    }
}

/// Whether the template `src` expands, and if not, why not.
pub open spec fn template_status(src: Seq<u8>) -> Result<(), TemplateError> {
    status_from(src, 0)
}

/// Whether a template expands, and the error when it does not, are the same
/// whatever version string is substituted.
pub proof fn lemma_expansion_status_independent_of_version(
    src: Seq<u8>,
    i: int,
    v1: Seq<u8>,
    v2: Seq<u8>,
)
    ensures
        expand_from(src, i, v1) is Ok <==> expand_from(src, i, v2) is Ok,
        expand_from(src, i, v1) is Err ==> expand_from(src, i, v1)->Err_0 == expand_from(
            src,
            i,
            v2,
        )->Err_0,
    decreases src.len() - i,
{
    if i < 0 || i >= src.len() {
    } else if opens_variable(src, i) {
        let e = first_close_brace(src, i + 2);
        lemma_first_close_brace(src, i + 2);
        if e < src.len() && e + 1 < src.len() && src[e + 1] == CLOSE_BRACE && src.subrange(i + 2, e)
            == version_ident() {
            lemma_expansion_status_independent_of_version(src, e + 2, v1, v2);
        }
    } else {
        lemma_expansion_status_independent_of_version(src, i + 1, v1, v2);
    }
}

/// A text in which no `{{` occurs is its own expansion.
pub proof fn lemma_expand_without_variables(src: Seq<u8>, i: int, version: Seq<u8>)
    requires
        0 <= i <= src.len(),
        forall|k: int| i <= k ==> !opens_variable(src, k),
    ensures
        expand_from(src, i, version) == Ok::<Seq<u8>, TemplateError>(src.subrange(i, src.len() as int)),
    decreases src.len() - i,
{
    if i < src.len() {
        lemma_expand_without_variables(src, i + 1, version);
        assert(seq![src[i]] + src.subrange(i + 1, src.len() as int) =~= src.subrange(i, src.len() as int));
    } else {
        assert(src.subrange(i, src.len() as int) =~= Seq::<u8>::empty());
    }
}

/// `error`, with the positions it names moved `n` bytes on.
pub open spec fn shift_error(error: TemplateError, n: int) -> TemplateError {
    match error {
        TemplateError::MissingClosingBrace => TemplateError::MissingClosingBrace,
        TemplateError::UnterminatedVariable { close } => TemplateError::UnterminatedVariable {
            close: (close + n) as usize,
        },
        TemplateError::UnknownVariable { start, end } => TemplateError::UnknownVariable {
            start: (start + n) as usize,
            end: (end + n) as usize,
        },
    }
}

/// `expansion` preceded by `prefix`, with the positions of an error moved
/// `n` bytes on.
pub open spec fn after_prefix(
    prefix: Seq<u8>,
    n: int,
    expansion: Result<Seq<u8>, TemplateError>,
) -> Result<Seq<u8>, TemplateError> {
    match expansion {
        Ok(rest) => Ok(prefix + rest),
        Err(error) => Err(shift_error(error, n)),
    }
}

proof fn lemma_first_close_brace_shift(p: Seq<u8>, b: Seq<u8>, j: int)
    requires
        0 <= j,
    ensures
        first_close_brace(p + b, p.len() + j) == p.len() + first_close_brace(b, j),
    decreases b.len() - j,
{
    if j < b.len() {
        assert((p + b)[p.len() + j] == b[j]);
        if b[j] != CLOSE_BRACE {
            lemma_first_close_brace_shift(p, b, j + 1);
        }
    }
}

proof fn lemma_first_close_brace_prefix(a: Seq<u8>, b: Seq<u8>, j: int)
    requires
        0 <= j,
        first_close_brace(a, j) < a.len(),
    ensures
        first_close_brace(a + b, j) == first_close_brace(a, j),
    decreases a.len() - j,
{
    if j < a.len() {
        assert((a + b)[j] == a[j]);
        if a[j] != CLOSE_BRACE {
            lemma_first_close_brace_prefix(a, b, j + 1);
        }
    }
}

/// Expanding `b` from `j` on, behind any prefix `p`, gives what `b` alone
/// gives, with error positions moved by the prefix's length.
proof fn lemma_expand_shift(p: Seq<u8>, b: Seq<u8>, j: int, version: Seq<u8>)
    requires
        0 <= j,
        p.len() + b.len() <= usize::MAX,
    ensures
        expand_from(p + b, p.len() + j, version) == after_prefix(
            Seq::empty(),
            p.len() as int,
            expand_from(b, j, version),
        ),
    decreases b.len() - j,
{
    let pb = p + b;
    let k = p.len() + j;
    if j >= b.len() {
        assert(Seq::<u8>::empty() + Seq::<u8>::empty() =~= Seq::<u8>::empty());
    } else {
        assert(pb[k] == b[j]);
        if j + 1 < b.len() {
            assert(pb[k + 1] == b[j + 1]);
        }
        assert(opens_variable(pb, k) == opens_variable(b, j));
        if opens_variable(b, j) {
            let e = first_close_brace(b, j + 2);
            lemma_first_close_brace_shift(p, b, j + 2);
            lemma_first_close_brace(b, j + 2);
            assert(first_close_brace(pb, k + 2) == p.len() + e);
            if e < b.len() {
                assert(pb[p.len() + e] == b[e]);
                if e + 1 < b.len() {
                    assert(pb[p.len() + e + 1] == b[e + 1]);
                    assert(pb.subrange(k + 2, p.len() + e) =~= b.subrange(j + 2, e));
                    if b[e + 1] == CLOSE_BRACE && b.subrange(j + 2, e) == version_ident() {
                        lemma_expand_shift(p, b, e + 2, version);
                        match expand_from(b, e + 2, version) {
                            Ok(rest) => {
                                assert(Seq::<u8>::empty() + (version + rest) =~= version + (
                                Seq::<u8>::empty() + rest));
                            },
                            Err(_) => {},
                        }
                    }
                }
            }
        } else {
            lemma_expand_shift(p, b, j + 1, version);
            match expand_from(b, j + 1, version) {
                Ok(rest) => {
                    assert(Seq::<u8>::empty() + (seq![b[j]] + rest) =~= seq![pb[k]] + (
                    Seq::<u8>::empty() + rest));
                },
                Err(_) => {},
            }
        }
    }
}

proof fn lemma_expand_concat_from(a: Seq<u8>, b: Seq<u8>, i: int, version: Seq<u8>)
    requires
        0 <= i <= a.len(),
        expand_from(a, i, version) is Ok,
        a.len() == 0 || a.last() != OPEN_BRACE,
        a.len() + b.len() <= usize::MAX,
    ensures
        expand_from(a + b, i, version) == after_prefix(
            expand_from(a, i, version)->Ok_0,
            a.len() as int,
            expand_from(b, 0, version),
        ),
    decreases a.len() - i,
{
    let ab = a + b;
    if i == a.len() {
        lemma_expand_shift(a, b, 0, version);
        match expand_from(b, 0, version) {
            Ok(rest) => {
                assert(Seq::<u8>::empty() + rest =~= rest);
            },
            Err(_) => {},
        }
    } else {
        assert(ab[i] == a[i]);
        if opens_variable(a, i) {
            assert(ab[i + 1] == a[i + 1]);
            let e = first_close_brace(a, i + 2);
            lemma_first_close_brace(a, i + 2);
            lemma_first_close_brace_prefix(a, b, i + 2);
            assert(ab[e + 1] == a[e + 1]);
            assert(ab.subrange(i + 2, e) =~= a.subrange(i + 2, e));
            lemma_expand_concat_from(a, b, e + 2, version);
            let rest = expand_from(a, e + 2, version)->Ok_0;
            match expand_from(b, 0, version) {
                Ok(tail) => {
                    assert(version + (rest + tail) =~= (version + rest) + tail);
                },
                Err(_) => {},
            }
        } else {
            if i + 1 < a.len() {
                assert(ab[i + 1] == a[i + 1]);
            } else {
                assert(a.last() == a[i]);
            }
            assert(!opens_variable(ab, i));
            lemma_expand_concat_from(a, b, i + 1, version);
            let rest = expand_from(a, i + 1, version)->Ok_0;
            match expand_from(b, 0, version) {
                Ok(tail) => {
                    assert(seq![a[i]] + (rest + tail) =~= (seq![a[i]] + rest) + tail);
                },
                Err(_) => {},
            }
        }
    }
}

/// Expanding `a` followed by `b` is expanding `a` and then `b`, when `a`
/// expands on its own and does not end in `{`: the expansions are joined,
/// and an error in `b` is reported at its position in the whole text.
pub proof fn lemma_expand_concat(a: Seq<u8>, b: Seq<u8>, version: Seq<u8>)
    requires
        expand_template(a, version) is Ok,
        a.len() == 0 || a.last() != OPEN_BRACE,
        a.len() + b.len() <= usize::MAX,
    ensures
        expand_template(a + b, version) == after_prefix(
            expand_template(a, version)->Ok_0,
            a.len() as int,
            expand_template(b, version),
        ),
{
    lemma_expand_concat_from(a, b, 0, version);
}

/// Finds the first `}` at or after `from`, given that the template is known
/// to have one.
fn find_close_brace(source: &[u8], from: usize) -> (r: usize)
    requires
        from <= source@.len(),
    ensures
        r == first_close_brace(source@, from as int),
{
    let mut j = from;
    while j < source.len() && source[j] != CLOSE_BRACE
        invariant
            from <= j <= source@.len(),
            first_close_brace(source@, from as int) == first_close_brace(source@, j as int),
        decreases source@.len() - j,
    {
        j += 1;
    }
    j
}

/// Whether `source[start..end]` spells `version`.
fn is_version_ident(source: &[u8], start: usize, end: usize) -> (r: bool)
    requires
        start <= end <= source@.len(),
    ensures
        r == (source@.subrange(start as int, end as int) == version_ident()),
{
    let r = end - start == 7 && source[start] == 0x76u8 && source[start + 1] == 0x65u8
        && source[start + 2] == 0x72u8 && source[start + 3] == 0x73u8 && source[start + 4] == 0x69u8
        && source[start + 5] == 0x6Fu8 && source[start + 6] == 0x6Eu8;
    proof {
        let s = source@.subrange(start as int, end as int);
        if r {
            assert(s =~= version_ident());
        } else if s.len() == 7 {
            if s == version_ident() {
                assert(s[0] == 0x76u8 && s[1] == 0x65u8 && s[2] == 0x72u8 && s[3] == 0x73u8);
                assert(s[4] == 0x69u8 && s[5] == 0x6Fu8 && s[6] == 0x6Eu8);
            }
        }
    }
    r
}

/// Checks a shader template: `Ok` when it expands, else the reason it does not.
pub fn check_template(source: &[u8]) -> (r: Result<(), TemplateError>)
    ensures
        r == template_status(source@),
{
    let mut index: usize = 0;
    while index < source.len()
        invariant
            index <= source@.len(),
            template_status(source@) == status_from(source@, index as int),
        decreases source@.len() - index,
    {
        if index + 1 < source.len() && source[index] == OPEN_BRACE && source[index + 1] == OPEN_BRACE {
            let end_index = find_close_brace(source, index + 2);
            proof {
                lemma_first_close_brace(source@, index + 2);
            }
            if end_index >= source.len() {
                return Err(TemplateError::MissingClosingBrace);
            }
            if end_index + 1 >= source.len() || source[end_index + 1] != CLOSE_BRACE {
                return Err(TemplateError::UnterminatedVariable { close: end_index });
            }
            if !is_version_ident(source, index + 2, end_index) {
                return Err(TemplateError::UnknownVariable { start: index + 2, end: end_index });
            }
            index = end_index + 2;
        } else {
            index += 1;
        }
    }
    Ok(())
}

impl GLDevice {
    /// Appends to `output` the expansion of the shader template `source`,
    /// with `version` in place of each `{{version}}`.
    pub fn preprocess(&self, output: &mut Vec<u8>, source: &[u8], version: &str)
        requires
            template_status(source@) is Ok,
        ensures
            final(output)@ == old(output)@ + expand_template(source@, version.spec_bytes())->Ok_0,
    {
        let ghost v = version.spec_bytes();
        proof {
            lemma_expansion_status_independent_of_version(source@, 0, Seq::empty(), v);
        }
        let ghost full = expand_from(source@, 0, v)->Ok_0;
        let version_bytes = version.as_bytes();
        let mut index: usize = 0;
        while index < source.len()
            invariant
                index <= source@.len(),
                version_bytes@ == v,
                expand_from(source@, index as int, v) is Ok,
                old(output)@ + full == output@ + expand_from(source@, index as int, v)->Ok_0,
            decreases source@.len() - index,
        {
            if index + 1 < source.len() && source[index] == OPEN_BRACE && source[index + 1] == OPEN_BRACE {
                let end_index = find_close_brace(source, index + 2);
                proof {
                    lemma_first_close_brace(source@, index + 2);
                }
                let ghost rest = expand_from(source@, end_index + 2, v)->Ok_0;
                let ghost before = output@;
                let mut k: usize = 0;
                while k < version_bytes.len()
                    invariant
                        k <= version_bytes@.len(),
                        output@ == before + version_bytes@.subrange(0, k as int),
                    decreases version_bytes@.len() - k,
                {
                    output.push(version_bytes[k]);
                    proof {
                        assert(version_bytes@.subrange(0, k + 1) =~= version_bytes@.subrange(0, k as int).push(version_bytes@[k as int]));
                    }
                    k += 1;
                }
                proof {
                    assert(version_bytes@.subrange(0, version_bytes@.len() as int) =~= version_bytes@);
                    assert(before + (v + rest) =~= (before + v) + rest);
                }
                index = end_index + 2;
            } else {
                let ghost before = output@;
                output.push(source[index]);
                proof {
                    let rest = expand_from(source@, index + 1, v)->Ok_0;
                    assert(before + (seq![source@[index as int]] + rest) =~= before.push(source@[index as int]) + rest);
                }
                index += 1;
            }
        }
        proof {
            assert(output@ + Seq::<u8>::empty() =~= output@);
        }
    }
}

} // verus!
