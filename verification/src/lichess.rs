//! Normalization of a game URL into its canonical export URL.
//!
//! A user may hand in any form of link to a game. The normalizer keeps the
//! original scheme and host, takes the first path segment as the game
//! identifier, shortens a twelve-character identifier to its eight-character
//! core (the long form carries a four-character viewer suffix), and points
//! the path at the text export endpoint with evaluation and clock
//! annotations switched off.

use vstd::prelude::*;
use vstd::string::StrSliceExecFns;
use vstd::string::StringExecFns;

use url::Url;

verus! {

/// The parts of a game URL that the normalizer reads: scheme, host and the
/// first path segment.
pub struct UrlParts {
    pub scheme: String,
    pub host: String,
    pub game_id: String,
}

/// What parsing a game URL yields: `None` when the text is not an absolute
/// URL with a domain host and a path, otherwise the scheme, the host and
/// the first path segment. The parse depends on the URL text alone.
pub uninterp spec fn lichess_url_parts(s: Seq<char>) -> Option<(Seq<char>, Seq<char>, Seq<char>)>;

/// Relies on `url::Url::parse` and on the accessors `Url::scheme`,
/// `Url::domain` and `Url::path_segments`: a parsed absolute URL exposes
/// its scheme always, its host only when the host is a domain name, and
/// its path segments only when it has a path; all of them are functions
/// of the URL text alone.
#[verifier::external_body]
fn parse_game_url(s: &str) -> (r: Option<UrlParts>)
    ensures
        match r {
            Some(p) => lichess_url_parts(s@) == Some((p.scheme@, p.host@, p.game_id@)),
            None => lichess_url_parts(s@) is None,
        },
{
    let url = Url::parse(s).ok()?;
    let host = url.domain()?.to_string();
    let game_id = url.path_segments()?.next()?.to_string();
    Some(UrlParts { scheme: url.scheme().to_string(), host, game_id })
}

/// The canonical form of a game identifier: a twelve-character identifier
/// loses its four-character viewer suffix, any other length stays as it is.
pub open spec fn canonical_game_id(id: Seq<char>) -> Seq<char> {
    if id.len() == 12 {
        id.subrange(0, 8)
    } else {
        id
    }
}

/// The export URL built from a scheme, a host and a raw game identifier.
pub open spec fn spec_export_url(scheme: Seq<char>, host: Seq<char>, id: Seq<char>) -> Seq<char> {
    scheme + "://"@ + host + "/game/export/"@ + canonical_game_id(id) + "?evals=0&clocks=0"@
}

/// What normalizing a game URL yields.
pub open spec fn spec_normalized_url(s: Seq<char>) -> Option<Seq<char>> {
    match lichess_url_parts(s) {
        Some(parts) => Some(spec_export_url(parts.0, parts.1, parts.2)),
        None => None,
    }
}

/// Converts a game URL to the canonical PGN export URL, or nothing when
/// the text has no domain host or no path segment to read a game
/// identifier from.
pub fn game_url_to_export_url(game_url: &str) -> (r: Option<String>)
    ensures
        match r {
            Some(out) => spec_normalized_url(game_url@) == Some(out@),
            None => spec_normalized_url(game_url@) is None,
        },
{
    let parts = match parse_game_url(game_url) {
        Some(p) => p,
        None => {
            return None;
        },
    };

    let mut out = String::new();
    out.append(parts.scheme.as_str());
    out.append("://");
    out.append(parts.host.as_str());
    out.append("/game/export/");

    let id = parts.game_id.as_str();
    if id.unicode_len() == 12 {
        out.append(id.substring_char(0, 8));
    } else {
        out.append(id);
    }

    out.append("?evals=0&clocks=0");

    proof {
        assert(out@ =~= spec_export_url(parts.scheme@, parts.host@, parts.game_id@));
    }

    Some(out)
}

/// A twelve-character identifier always drops its last four characters on
/// the way to the canonical form; an identifier of any other length passes
/// through unchanged.
pub proof fn lemma_canonical_game_id(id: Seq<char>)
    ensures
        id.len() == 12 ==> canonical_game_id(id) == id.subrange(0, 8),
        id.len() != 12 ==> canonical_game_id(id) == id,
{
}

} // verus!
