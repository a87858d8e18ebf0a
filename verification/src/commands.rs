//! What each subcommand computes, once the pages are in hand.
//!
//! The handlers here take decoded pages and raw header bytes and produce
//! the exact text the tool prints, or the error it fails with. The HTTP
//! shell fetches the pages (through the paginator), decodes the JSON
//! bodies into the page types of this module, and writes the returned
//! text out.

use vstd::prelude::*;
use vstd::string::StringExecFns;

use crate::api::classification_error;
use crate::api::classify_ok;
use crate::api::opt_bytes;
use crate::api::parse_response_status;
use crate::ascii::ascii_chars;
use crate::ascii::check_visible_ascii;
use crate::ascii::copy_bytes;
use crate::ascii::is_visible_ascii;
use crate::ascii::string_from_ascii;
use crate::error::ApiError;

verus! {

/// One decoded page of the repository catalog.
#[derive(Debug, PartialEq, Eq)]
pub struct CatalogPage {
    pub repositories: Vec<String>,
}

/// One decoded page of an image's tag list.
#[derive(Debug, PartialEq, Eq)]
pub struct TagsPage {
    pub tags: Vec<String>,
}

/// One layer of a manifest.
#[derive(Debug, PartialEq, Eq)]
pub struct FsLayer {
    pub blob_sum: String,
}

/// A manifest as the `show` subcommand displays it: the decoded body
/// fields together with the digest and etag taken from the response
/// headers.
#[derive(Debug, PartialEq, Eq)]
pub struct Manifest {
    pub name: String,
    pub tag: String,
    pub architecture: String,
    pub fslayers: Vec<FsLayer>,
    pub digest: String,
    pub etag: String,
}

/// All repository names of a sequence of catalog pages, in page order.
pub open spec fn catalog_names(pages: Seq<CatalogPage>) -> Seq<String>
    decreases pages.len(),
{
    if pages.len() == 0 {
        Seq::empty()
    } else {
        pages.first().repositories@ + catalog_names(pages.skip(1))
    }
}

/// All tag names of a sequence of tag-list pages, in page order.
pub open spec fn tag_names(pages: Seq<TagsPage>) -> Seq<String>
    decreases pages.len(),
{
    if pages.len() == 0 {
        Seq::empty()
    } else {
        pages.first().tags@ + tag_names(pages.skip(1))
    }
}

/// The given names, each followed by a newline.
pub open spec fn lines_of(names: Seq<String>) -> Seq<char>
    decreases names.len(),
{
    if names.len() == 0 {
        Seq::empty()
    } else {
        names.first()@ + "\n"@ + lines_of(names.skip(1))
    }
}

proof fn lemma_catalog_names_push(pages: Seq<CatalogPage>, p: CatalogPage)
    ensures
        catalog_names(pages.push(p)) == catalog_names(pages) + p.repositories@,
    decreases pages.len(),
{
    if pages.len() == 0 {
        reveal_with_fuel(catalog_names, 2);
        assert(pages.push(p).skip(1) =~= Seq::<CatalogPage>::empty());
        assert(catalog_names(pages.push(p)) =~= catalog_names(pages) + p.repositories@);
    } else {
        let l = pages.push(p);
        assert(l.skip(1) =~= pages.skip(1).push(p));
        lemma_catalog_names_push(pages.skip(1), p);
        assert(l.first() == pages.first());
        assert(catalog_names(l) == l.first().repositories@ + catalog_names(l.skip(1)));
        assert(catalog_names(l.skip(1)) == catalog_names(pages.skip(1)) + p.repositories@);
        assert(catalog_names(l) =~= catalog_names(pages) + p.repositories@);
    }
}

proof fn lemma_tag_names_push(pages: Seq<TagsPage>, p: TagsPage)
    ensures
        tag_names(pages.push(p)) == tag_names(pages) + p.tags@,
    decreases pages.len(),
{
    if pages.len() == 0 {
        reveal_with_fuel(tag_names, 2);
        assert(pages.push(p).skip(1) =~= Seq::<TagsPage>::empty());
        assert(tag_names(pages.push(p)) =~= tag_names(pages) + p.tags@);
    } else {
        let l = pages.push(p);
        assert(l.skip(1) =~= pages.skip(1).push(p));
        lemma_tag_names_push(pages.skip(1), p);
        assert(l.first() == pages.first());
        assert(tag_names(l) == l.first().tags@ + tag_names(l.skip(1)));
        assert(tag_names(l.skip(1)) == tag_names(pages.skip(1)) + p.tags@);
        assert(tag_names(l) =~= tag_names(pages) + p.tags@);
    }
}

proof fn lemma_lines_of_push(names: Seq<String>, x: String)
    ensures
        lines_of(names.push(x)) == lines_of(names) + x@ + "\n"@,
    decreases names.len(),
{
    if names.len() == 0 {
        reveal_with_fuel(lines_of, 2);
        assert(names.push(x).skip(1) =~= Seq::<String>::empty());
        assert(lines_of(names.push(x)) =~= lines_of(names) + x@ + "\n"@);
    } else {
        let l = names.push(x);
        assert(l.skip(1) =~= names.skip(1).push(x));
        lemma_lines_of_push(names.skip(1), x);
        assert(l.first() == names.first());
        assert(lines_of(l) == l.first()@ + "\n"@ + lines_of(l.skip(1)));
        assert(lines_of(l.skip(1)) == lines_of(names.skip(1)) + x@ + "\n"@);
        assert(lines_of(l) =~= lines_of(names) + x@ + "\n"@);
    }
}

fn append_all(dst: &mut Vec<String>, src: &Vec<String>)
    ensures
        final(dst)@ == old(dst)@ + src@,
{
    let mut j: usize = 0;
    while j < src.len()
        invariant
            j <= src@.len(),
            dst@ =~= old(dst)@ + src@.take(j as int),
        decreases src@.len() - j,
    {
        dst.push(src[j].clone());
        j = j + 1;
    }
    proof {
        assert(dst@ =~= old(dst)@ + src@);
    }
}

/// The given names, one per line, as one string.
pub fn render_lines(names: &Vec<String>) -> (r: String)
    ensures
        r@ == lines_of(names@),
{
    let mut out = String::new();
    let mut i: usize = 0;
    while i < names.len()
        invariant
            i <= names@.len(),
            out@ == lines_of(names@.take(i as int)),
        decreases names@.len() - i,
    {
        out.append(names[i].as_str());
        out.append("\n");
        proof {
            assert(names@.take(i + 1 as int) =~= names@.take(i as int).push(names@[i as int]));
            lemma_lines_of_push(names@.take(i as int), names@[i as int]);
        }
        i = i + 1;
    }
    proof {
        assert(names@.take(names@.len() as int) =~= names@);
    }
    out
}

/// The output of the `catalog` subcommand: every repository name of every
/// fetched page, in order, one per line.
pub fn catalog_handler(pages: &Vec<CatalogPage>) -> (r: String)
    ensures
        r@ == lines_of(catalog_names(pages@)),
{
    let mut names: Vec<String> = Vec::new();
    let mut i: usize = 0;
    while i < pages.len()
        invariant
            i <= pages@.len(),
            names@ == catalog_names(pages@.take(i as int)),
        decreases pages@.len() - i,
    {
        append_all(&mut names, &pages[i].repositories);
        proof {
            assert(pages@.take(i + 1 as int) =~= pages@.take(i as int).push(pages@[i as int]));
            lemma_catalog_names_push(pages@.take(i as int), pages@[i as int]);
        }
        i = i + 1;
    }
    proof {
        assert(pages@.take(pages@.len() as int) =~= pages@);
    }
    render_lines(&names)
}

/// The output of the `tags` subcommand: every tag of every fetched page,
/// in order, one per line.
pub fn tags_handler(pages: &Vec<TagsPage>) -> (r: String)
    ensures
        r@ == lines_of(tag_names(pages@)),
{
    let mut names: Vec<String> = Vec::new();
    let mut i: usize = 0;
    while i < pages.len()
        invariant
            i <= pages@.len(),
            names@ == tag_names(pages@.take(i as int)),
        decreases pages@.len() - i,
    {
        append_all(&mut names, &pages[i].tags);
        proof {
            assert(pages@.take(i + 1 as int) =~= pages@.take(i as int).push(pages@[i as int]));
            lemma_tag_names_push(pages@.take(i as int), pages@[i as int]);
        }
        i = i + 1;
    }
    proof {
        assert(pages@.take(pages@.len() as int) =~= pages@);
    }
    render_lines(&names)
}

/// The output of the `check` subcommand: `Ok` on a response that confirms
/// the V2 API, otherwise exactly the classification error.
pub fn check_handler(status: u16, version_header: Option<&Vec<u8>>) -> (r: Result<String, ApiError>)
    ensures
        match r {
            Ok(s) => classify_ok(status, opt_bytes(version_header)) && s@ == "Ok\n"@,
            Err(e) => !classify_ok(status, opt_bytes(version_header)) && classification_error(
                status,
                opt_bytes(version_header),
                e,
            ),
        },
{
    match parse_response_status(status, version_header) {
        Ok(()) => Ok(String::from_str("Ok\n")),
        Err(e) => Err(e),
    }
}

/// The etag the `show` subcommand displays, given the raw bytes of the
/// `etag` header and of the already-read digest: the etag stripped of a
/// `'"` ... `"'` wrapping, or the digest when it is not so wrapped.
pub open spec fn dequoted_etag(etag: Seq<u8>, digest: Seq<u8>) -> Seq<u8> {
    if etag.len() >= 4 && etag[0] == 39 && etag[1] == 34 && etag[etag.len() - 2] == 34
        && etag[etag.len() - 1] == 39 {
        etag.subrange(2, etag.len() - 2)
    } else {
        digest
    }
}

/// The manifest the `show` subcommand displays: the decoded body fields,
/// the digest from the `docker-content-digest` header, and the etag from
/// the `etag` header (falling back to the digest when not quoted as
/// expected). A missing header is an unexpected response; header bytes
/// that do not read as text are a header-decoding error.
pub fn show_handler(
    name: String,
    tag: String,
    architecture: String,
    fslayers: Vec<FsLayer>,
    digest_header: Option<&Vec<u8>>,
    etag_header: Option<&Vec<u8>>,
) -> (r: Result<Manifest, ApiError>)
    ensures
        match r {
            Ok(m) => {
                &&& digest_header matches Some(dh) && is_visible_ascii(dh@) && m.digest@
                    == ascii_chars(dh@) && m.etag@ == ascii_chars(
                    dequoted_etag(etag_header->Some_0@, dh@),
                )
                &&& etag_header matches Some(eh) && is_visible_ascii(eh@)
                &&& m.name == name && m.tag == tag && m.architecture == architecture && m.fslayers
                    == fslayers
            },
            Err(e) => match digest_header {
                None => e matches ApiError::UnexpectedResponse(m) && m@
                    == "Missing docker-content-digest header"@,
                Some(dh) => {
                    if !is_visible_ascii(dh@) {
                        e is ResponseHeaderParseError
                    } else {
                        match etag_header {
                            None => e matches ApiError::UnexpectedResponse(m) && m@
                                == "Missing etag header"@,
                            Some(eh) => !is_visible_ascii(eh@) && e is ResponseHeaderParseError,
                        }
                    }
                },
            },
        },
{
    let dh = match digest_header {
        None => {
            return Err(
                ApiError::UnexpectedResponse(
                    String::from_str("Missing docker-content-digest header"),
                ),
            );
        },
        Some(dh) => dh,
    };
    if !check_visible_ascii(dh) {
        return Err(ApiError::ResponseHeaderParseError);
    }
    let digest = string_from_ascii(copy_bytes(dh));

    let eh = match etag_header {
        None => {
            return Err(ApiError::UnexpectedResponse(String::from_str("Missing etag header")));
        },
        Some(eh) => eh,
    };
    if !check_visible_ascii(eh) {
        return Err(ApiError::ResponseHeaderParseError);
    }

    let n = eh.len();
    let etag: String = if n >= 4 && eh[0] == 39 && eh[1] == 34 && eh[n - 2] == 34 && eh[n - 1]
        == 39 {
        let mut mid: Vec<u8> = Vec::new();
        let mut k: usize = 2;
        while k < n - 2
            invariant
                2 <= k <= n - 2,
                n == eh@.len(),
                mid@ =~= eh@.subrange(2, k as int),
            decreases n - k,
        {
            mid.push(eh[k]);
            k = k + 1;
        }
        proof {
            assert(mid@ =~= dequoted_etag(eh@, dh@));
        }
        string_from_ascii(mid)
    } else {
        proof {
            assert(dequoted_etag(eh@, dh@) == dh@);
        }
        digest.clone()
    };

    Ok(Manifest { name, tag, architecture, fslayers, digest, etag })
}

} // verus!
