use vstd::prelude::*;

use crate::text::{
    first_word, first_word_of, is_space, lemma_first_word_at_start, strip_prefix, strip_prefix_of,
};
use crate::tool::{tool_prefix, Tool};
use crate::version::{
    lemma_release_text_is_word, model_of, parse_semver, release_text, semver_parse, Version,
    VersionModel,
};

verus! {

/// The version that `tool`'s `--version` output `out` reports: the first word
/// after the tool's prefix, read as a semantic version. `None` where the prefix
/// is missing, no word follows it, or the word is no semantic version.
pub open spec fn version_in_output(tool: Tool, out: Seq<char>) -> Option<VersionModel> {
    match strip_prefix(out, tool_prefix(tool)) {
        None => None,
        Some(rest) => match first_word(rest) {
            None => None,
            Some(word) => semver_parse(word),
        },
    }
}

/// `out` opens with `tool`'s prefix and the release `a.b.c`, followed by
/// whitespace or by nothing.
pub open spec fn opens_with_release(tool: Tool, out: Seq<char>, a: u64, b: u64, c: u64) -> bool {
    let head = tool_prefix(tool) + release_text(a, b, c);
    head.is_prefix_of(out) && (out.len() == head.len() || is_space(out[head.len() as int]))
}

/// Reads the version from `tool`'s `--version` output `out`.
///
/// Output that opens with the tool's prefix and a plain `major.minor.patch`,
/// followed by whitespace or by nothing, reads as that release whatever else
/// follows.
pub fn parse_output(tool: Tool, out: &str) -> (r: Option<Version>)
    ensures
        model_of(r) == version_in_output(tool, out@),
        forall|a: u64, b: u64, c: u64|
            #[trigger] opens_with_release(tool, out@, a, b, c) ==> model_of(r) == Some(
                (a, b, c, Seq::<char>::empty(), Seq::<char>::empty()),
            ),
{
    let r = match strip_prefix_of(out, tool.prefix()) {
        None => None,
        Some(rest) => match first_word_of(rest) {
            None => None,
            Some(word) => parse_semver(word),
        },
    };
    assert forall|a: u64, b: u64, c: u64|
        #[trigger] opens_with_release(tool, out@, a, b, c) implies model_of(r) == Some(
        (a, b, c, Seq::<char>::empty(), Seq::<char>::empty()),
    ) by {
        let p = tool_prefix(tool);
        let t = release_text(a, b, c);
        assert(out@.subrange(0, p.len() as int) =~= (p + t).subrange(0, p.len() as int));
        assert(p.is_prefix_of(out@));
        let rest = out@.skip(p.len() as int);
        let tail = out@.skip((p.len() + t.len()) as int);
        assert(rest =~= t + tail) by {
            assert forall|k: int| 0 <= k < t.len() implies rest[k] == t[k] by {
                assert(out@[p.len() + k] == (p + t)[p.len() + k]);
            }
        }
        lemma_release_text_is_word(a, b, c);
        lemma_first_word_at_start(rest, t, tail);
    }
    r
}

} // verus!
