//! The template representation and the substitution engine.
//!
//! A template is a sequence of chunks: literal text, one of the bound fields,
//! or a block that is present only when version prompts are requested. The
//! rendered text is the concatenation of each chunk's text under a given
//! binding, and the executable renderer is proved to produce exactly that.

use vstd::prelude::*;
use vstd::string::StringExecFns;

use crate::options::PublishingFormat;

verus! {

/// One piece of a template: literal text, a substituted field, or the
/// optional version-prompt block.
pub enum Chunk {
    /// Literal template text, emitted unchanged.
    Lit(&'static str),
    /// The catalog entry's title.
    Title,
    /// The publishing format's display label.
    FormatLabel,
    /// The publishing format's lowercase file-extension token.
    FormatExt,
    /// The build variant's name; empty text when the field is absent.
    VariantName,
    /// The build variant's output path; empty text when the field is absent.
    VariantPath,
    /// Literal text that is present only when version prompts are requested.
    Versions(&'static str),
}

/// The values a template is rendered against.
pub ghost struct Binds {
    pub title: Seq<char>,
    pub format: PublishingFormat,
    pub variant_name: Seq<char>,
    pub variant_path: Seq<char>,
    pub show_versions: bool,
}

/// The text one chunk contributes under a binding.
pub open spec fn chunk_text(c: Chunk, b: Binds) -> Seq<char> {
    match c {
        Chunk::Lit(s) => s@,
        Chunk::Title => b.title,
        Chunk::FormatLabel => b.format.label(),
        Chunk::FormatExt => b.format.ext(),
        Chunk::VariantName => b.variant_name,
        Chunk::VariantPath => b.variant_path,
        Chunk::Versions(s) => if b.show_versions {
            s@
        } else {
            Seq::<char>::empty()
        },
    }
}

/// The full text of a chunk sequence under a binding.
pub open spec fn render_text(cs: Seq<Chunk>, b: Binds) -> Seq<char>
    decreases cs.len(),
{
    if cs.len() == 0 {
        Seq::<char>::empty()
    } else {
        chunk_text(cs[0], b) + render_text(cs.drop_first(), b)
    }
}

/// `needle` occurs somewhere in `hay` as a contiguous run.
pub open spec fn contains_text(hay: Seq<char>, needle: Seq<char>) -> bool {
    exists|i: int|
        0 <= i && i + needle.len() <= hay.len() && #[trigger] hay.subrange(i, i + needle.len())
            == needle
}

/// Rendering splits at any position: the text of a sequence is the text of a
/// prefix followed by the text of the rest.
pub proof fn lemma_render_text_split(cs: Seq<Chunk>, b: Binds, k: int)
    requires
        0 <= k <= cs.len(),
    ensures
        render_text(cs, b) == render_text(cs.subrange(0, k), b) + render_text(
            cs.subrange(k, cs.len() as int),
            b,
        ),
    decreases k,
{
    if k == 0 {
        assert(cs.subrange(0, cs.len() as int) =~= cs);
        assert(render_text(cs.subrange(0, 0), b) + render_text(cs, b) =~= render_text(cs, b));
    } else {
        let tail = cs.drop_first();
        lemma_render_text_split(tail, b, k - 1);
        assert(tail.subrange(0, k - 1) =~= cs.subrange(0, k).drop_first());
        assert(tail.subrange(k - 1, tail.len() as int) =~= cs.subrange(k, cs.len() as int));
        assert(cs.subrange(0, k)[0] == cs[0]);
        assert(chunk_text(cs[0], b) + (render_text(cs.subrange(0, k).drop_first(), b)
            + render_text(cs.subrange(k, cs.len() as int), b)) =~= render_text(
            cs.subrange(0, k),
            b,
        ) + render_text(cs.subrange(k, cs.len() as int), b));
    }
}

/// A one-chunk sequence renders to exactly that chunk's text.
pub proof fn lemma_render_text_single(c: Chunk, b: Binds)
    ensures
        render_text(seq![c], b) == chunk_text(c, b),
{
    let one = seq![c];
    assert(one.drop_first() =~= Seq::<Chunk>::empty());
    assert(render_text(one.drop_first(), b) == Seq::<char>::empty());
    assert(one[0] == c);
    assert(chunk_text(c, b) + Seq::<char>::empty() =~= chunk_text(c, b));
}

/// Extending a rendered prefix by one chunk appends that chunk's text.
pub proof fn lemma_render_text_push(cs: Seq<Chunk>, b: Binds, k: int)
    requires
        0 <= k < cs.len(),
    ensures
        render_text(cs.subrange(0, k + 1), b) == render_text(cs.subrange(0, k), b) + chunk_text(
            cs[k],
            b,
        ),
{
    let pre = cs.subrange(0, k + 1);
    lemma_render_text_split(pre, b, k);
    assert(pre.subrange(0, k) =~= cs.subrange(0, k));
    let last = pre.subrange(k, k + 1);
    assert(last =~= seq![cs[k]]);
    lemma_render_text_single(cs[k], b);
}

/// The text of any contiguous run of chunks occurs in the full rendered text.
pub proof fn lemma_render_text_range(cs: Seq<Chunk>, b: Binds, i: int, j: int)
    requires
        0 <= i <= j <= cs.len(),
    ensures
        contains_text(render_text(cs, b), render_text(cs.subrange(i, j), b)),
{
    lemma_render_text_split(cs, b, i);
    let left = render_text(cs.subrange(0, i), b);
    let rest = cs.subrange(i, cs.len() as int);
    lemma_render_text_split(rest, b, j - i);
    assert(rest.subrange(0, j - i) =~= cs.subrange(i, j));
    let mid = render_text(cs.subrange(i, j), b);
    let right = render_text(rest.subrange(j - i, rest.len() as int), b);
    let whole = render_text(cs, b);
    assert(whole == left + (mid + right));
    assert(whole.subrange(left.len() as int, left.len() + mid.len() as int) =~= mid);
}

/// A single chunk's text occurs in the full rendered text.
pub proof fn lemma_render_contains_chunk(cs: Seq<Chunk>, b: Binds, i: int)
    requires
        0 <= i < cs.len(),
    ensures
        contains_text(render_text(cs, b), chunk_text(cs[i], b)),
{
    lemma_render_text_range(cs, b, i, i + 1);
    assert(cs.subrange(i, i + 1) =~= seq![cs[i]]);
    lemma_render_text_single(cs[i], b);
}

/// The joined text of three adjacent chunks occurs in the full rendered text.
pub proof fn lemma_render_contains_three(cs: Seq<Chunk>, b: Binds, i: int)
    requires
        0 <= i,
        i + 3 <= cs.len(),
    ensures
        contains_text(
            render_text(cs, b),
            chunk_text(cs[i], b) + chunk_text(cs[i + 1], b) + chunk_text(cs[i + 2], b),
        ),
{
    lemma_render_text_range(cs, b, i, i + 3);
    let three = cs.subrange(i, i + 3);
    let two = three.drop_first();
    let one = two.drop_first();
    assert(one =~= seq![cs[i + 2]]);
    lemma_render_text_single(cs[i + 2], b);
    assert(two[0] == cs[i + 1]);
    assert(render_text(two, b) == chunk_text(cs[i + 1], b) + chunk_text(cs[i + 2], b));
    assert(three[0] == cs[i]);
    assert(render_text(three, b) == chunk_text(cs[i], b) + (chunk_text(cs[i + 1], b) + chunk_text(
        cs[i + 2],
        b,
    )));
    assert(chunk_text(cs[i], b) + (chunk_text(cs[i + 1], b) + chunk_text(cs[i + 2], b))
        =~= chunk_text(cs[i], b) + chunk_text(cs[i + 1], b) + chunk_text(cs[i + 2], b));
}

/// A chunk sequence without a variant-name chunk renders to the same text
/// under bindings that differ only in the variant name.
pub proof fn lemma_render_ignores_variant_name(cs: Seq<Chunk>, b1: Binds, b2: Binds)
    requires
        forall|i: int| 0 <= i < cs.len() ==> !(cs[i] is VariantName),
        b1.title == b2.title,
        b1.format == b2.format,
        b1.variant_path == b2.variant_path,
        b1.show_versions == b2.show_versions,
    ensures
        render_text(cs, b1) == render_text(cs, b2),
    decreases cs.len(),
{
    if cs.len() > 0 {
        assert(chunk_text(cs[0], b1) == chunk_text(cs[0], b2));
        assert(forall|i: int|
            0 <= i < cs.drop_first().len() ==> !(#[trigger] cs.drop_first()[i] is VariantName));
        lemma_render_ignores_variant_name(cs.drop_first(), b1, b2);
    }
}

/// Renders a chunk sequence with the given field values bound into it.
pub fn render_chunks(
    chunks: &Vec<Chunk>,
    title: &str,
    pf: PublishingFormat,
    variant_name: &str,
    variant_path: &str,
    show_versions: bool,
) -> (r: String)
    ensures
        r@ == render_text(
            chunks@,
            (Binds {
                title: title@,
                format: pf,
                variant_name: variant_name@,
                variant_path: variant_path@,
                show_versions,
            }),
        ),
{
    let ghost b = Binds {
        title: title@,
        format: pf,
        variant_name: variant_name@,
        variant_path: variant_path@,
        show_versions,
    };
    let mut out = String::new();
    proof {
        assert(chunks@.subrange(0, 0) =~= Seq::<Chunk>::empty());
    }
    let mut i: usize = 0;
    while i < chunks.len()
        invariant
            i <= chunks@.len(),
            out@ == render_text(chunks@.subrange(0, i as int), b),
            b == (Binds {
                title: title@,
                format: pf,
                variant_name: variant_name@,
                variant_path: variant_path@,
                show_versions,
            }),
        decreases chunks@.len() - i,
    {
        proof {
            lemma_render_text_push(chunks@, b, i as int);
        }
        let c = &chunks[i];
        match c {
            Chunk::Lit(s) => out.append(s),
            Chunk::Title => out.append(title),
            Chunk::FormatLabel => {
                match pf {
                    PublishingFormat::Apk => out.append("APK"),
                    PublishingFormat::Aab => out.append("AAB"),
                }
            },
            Chunk::FormatExt => {
                match pf {
                    PublishingFormat::Apk => out.append("apk"),
                    PublishingFormat::Aab => out.append("aab"),
                }
            },
            Chunk::VariantName => out.append(variant_name),
            Chunk::VariantPath => out.append(variant_path),
            Chunk::Versions(s) => {
                if show_versions {
                    out.append(s);
                } else {
                    proof {
                        assert(out@ + chunk_text(chunks@[i as int], b) =~= out@);
                    }
                }
            },
        }
        i = i + 1;
    }
    proof {
        assert(chunks@.subrange(0, chunks@.len() as int) =~= chunks@);
    }
    out
}

} // verus!
