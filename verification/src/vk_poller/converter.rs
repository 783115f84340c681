//! Conversion of one wall post into a Telegram-ready message: link markup
//! rewriting, escaping of the characters Telegram's MarkdownV2 dialect
//! reserves, selection of the large copy of each photo, and the pin flag.
//!
//! Conversion is a pure function of the post: the same post always yields
//! the same message or the same failure.

use crate::domain::TelegramChannelId;
use crate::domain::TelegramPost;
use crate::domain::TelegramPostPhoto;
use crate::vk_api::Attachment;
use crate::vk_api::Photo;
use crate::vk_api::PhotoSize;
use crate::vk_api::PhotoType;
use crate::vk_api::Post;
use vstd::prelude::*;
use vstd::string::StrSliceExecFns;

verus! {

/// Why a post could not be converted.
#[derive(Clone, Copy, Debug, PartialEq, Eq, Structural)]
pub enum ConvertError {
    /// A photo attachment has no copy of the large `W` size class.
    MissingLargePhoto,
}

/// Relies on alloc's String::push: appends the given character to the end
/// of the string.
pub assume_specification[ String::push ](s: &mut String, c: char)
    ensures
        final(s)@ == old(s)@.push(c),
;

/// The characters reserved by Telegram's MarkdownV2 dialect; each one is
/// escaped with a backslash.
pub open spec fn is_special_char(c: char) -> bool {
    c == '+' || c == '-' || c == '=' || c == '#' || c == '!' || c == '?' || c == '_' || c == '.'
        || c == '*' || c == '[' || c == ']' || c == '(' || c == ')' || c == '{' || c == '}'
        || c == '`'
}

/// The text with every reserved character prefixed by a backslash,
/// scanning left to right.
pub open spec fn escape_seq(s: Seq<char>) -> Seq<char>
    decreases s.len(),
{
    if s.len() == 0 {
        Seq::empty()
    } else {
        escape_seq(s.drop_last()) + (if is_special_char(s.last()) {
            seq!['\\', s.last()]
        } else {
            seq![s.last()]
        })
    }
}

/// The text with each `[target|label]` link markup rewritten into
/// `[label](https://vk.com/target)`; named here, computed by the regex
/// engine.
pub uninterp spec fn links_rewritten(s: Seq<char>) -> Seq<char>;

/// The whole text transform: links rewritten, then reserved characters
/// escaped.
pub open spec fn markdown_text(s: Seq<char>) -> Seq<char> {
    escape_seq(links_rewritten(s))
}

/// Relies on regex's Regex::replace_all with a fixed pattern: every
/// non-overlapping `[target|label]` match is rewritten to
/// `[label](https://vk.com/target)`, and the result depends on the text
/// alone.
#[verifier::external_body]
fn convert_links(text: &str) -> (r: String)
    ensures
        r@ == links_rewritten(text@),
{
    let re = regex::Regex::new(r"\[(.+)\|(.+)\]").expect("the pattern is well formed");
    re.replace_all(text, "[$2](https://vk.com/$1)").into_owned()
}

fn is_special(c: char) -> (r: bool)
    ensures
        r == is_special_char(c),
{
    c == '+' || c == '-' || c == '=' || c == '#' || c == '!' || c == '?' || c == '_' || c == '.'
        || c == '*' || c == '[' || c == ']' || c == '(' || c == ')' || c == '{' || c == '}'
        || c == '`'
}

/// Escapes every character reserved by Telegram's MarkdownV2 dialect by
/// prefixing it with a backslash, in one left-to-right scan.
pub fn escape_characters(text: &str) -> (r: String)
    ensures
        r@ == escape_seq(text@),
{
    let n = text.unicode_len();
    let mut escaped = String::new();
    let mut i: usize = 0;
    while i < n
        invariant
            n == text@.len(),
            i <= n,
            escaped@ == escape_seq(text@.take(i as int)),
        decreases n - i,
    {
        let c = text.get_char(i);
        if is_special(c) {
            escaped.push('\\');
        }
        escaped.push(c);
        proof {
            assert(text@.take(i + 1).drop_last() =~= text@.take(i as int));
            assert(text@.take(i + 1).last() == c);
        }
        i = i + 1;
    }
    proof {
        assert(text@.take(n as int) =~= text@);
    }
    escaped
}

/// Rewrites VK link markup into Telegram markup and escapes the reserved
/// characters of the result.
pub fn vk_format_to_markdown(text: &str) -> (r: String)
    ensures
        r@ == markdown_text(text@),
{
    let converted = convert_links(text);
    escape_characters(converted.as_str())
}

/// Index of the first copy of the `W` size class in `sizes`, or
/// `sizes.len()` when there is none.
pub open spec fn first_w_index(sizes: Seq<PhotoSize>) -> int
    decreases sizes.len(),
{
    if sizes.len() == 0 {
        0
    } else if sizes.first().kind is W {
        0
    } else {
        1 + first_w_index(sizes.drop_first())
    }
}

/// A photo converts only when some copy of it has the `W` size class.
pub open spec fn photo_has_w(p: Photo) -> bool {
    first_w_index(p.sizes@) < p.sizes@.len()
}

/// Address of the large copy of a photo.
pub open spec fn photo_w_url(p: Photo) -> Seq<char> {
    p.sizes@[first_w_index(p.sizes@)].url@
}

/// The first index of the `W` class is within bounds, points at a `W` copy
/// exactly when one exists, and nothing before it is a `W` copy.
pub proof fn lemma_first_w_index(sizes: Seq<PhotoSize>)
    ensures
        0 <= first_w_index(sizes) <= sizes.len(),
        first_w_index(sizes) < sizes.len() ==> sizes[first_w_index(sizes)].kind is W,
        forall|j: int| 0 <= j < first_w_index(sizes) ==> !(sizes[j].kind is W),
        first_w_index(sizes) == sizes.len() ==> forall|j: int|
            0 <= j < sizes.len() ==> !(sizes[j].kind is W),
    decreases sizes.len(),
{
    if sizes.len() > 0 && !(sizes.first().kind is W) {
        lemma_first_w_index(sizes.drop_first());
        assert(forall|j: int|
            1 <= j < sizes.len() ==> sizes[j] == sizes.drop_first()[j - 1]);
    }
}

fn find_w_size(sizes: &Vec<PhotoSize>) -> (r: Option<&PhotoSize>)
    ensures
        match r {
            Some(s) => first_w_index(sizes@) < sizes@.len() && *s == sizes@[first_w_index(
                sizes@,
            )],
            None => first_w_index(sizes@) == sizes@.len(),
        },
{
    proof {
        lemma_first_w_index(sizes@);
    }
    let n = sizes.len();
    let mut j: usize = 0;
    while j < n
        invariant
            n == sizes@.len(),
            j <= n,
            forall|k: int| 0 <= k < j ==> !(sizes@[k].kind is W),
            0 <= first_w_index(sizes@) <= sizes@.len(),
            first_w_index(sizes@) < sizes@.len() ==> sizes@[first_w_index(sizes@)].kind is W,
            forall|k: int| 0 <= k < first_w_index(sizes@) ==> !(sizes@[k].kind is W),
        decreases n - j,
    {
        let found = match sizes[j].kind {
            PhotoType::W => true,
            _ => false,
        };
        if found {
            proof {
                if first_w_index(sizes@) < j {
                    assert(!(sizes@[first_w_index(sizes@)].kind is W));
                }
            }
            return Some(&sizes[j]);
        }
        j = j + 1;
    }
    None
}

/// Views of the photos of a converted message: for each, the address of the
/// copy to fetch and the caption.
pub open spec fn photo_views(photos: Seq<TelegramPostPhoto>) -> Seq<(Seq<char>, Seq<char>)> {
    photos.map_values(|p: TelegramPostPhoto| (p.url@, p.description@))
}

/// A post converts only when every photo attachment has a large copy.
pub open spec fn attachments_ok(atts: Seq<Attachment>) -> bool {
    forall|i: int|
        0 <= i < atts.len() ==> (#[trigger] atts[i] matches Attachment::Photo(p)
            ==> photo_has_w(p))
}

/// The photos of the converted message: one entry per photo attachment, in
/// order; the other attachment variants are skipped.
pub open spec fn converted_photos(atts: Seq<Attachment>) -> Seq<(Seq<char>, Seq<char>)>
    decreases atts.len(),
{
    if atts.len() == 0 {
        Seq::empty()
    } else {
        converted_photos(atts.drop_last()) + (match atts.last() {
            Attachment::Photo(p) => seq![(photo_w_url(p), p.description@)],
            _ => Seq::empty(),
        })
    }
}

/// Turns one wall post into a Telegram-ready message: the text transformed
/// to Telegram markup, one photo entry per photo attachment (its large copy
/// and caption), and the pin flag taken from the wall. Fails exactly when a
/// photo attachment has no large copy; attachments of the other variants
/// are skipped.
pub fn vk_to_tg(channel_id: TelegramChannelId, post: &Post) -> (r: Result<
    TelegramPost,
    ConvertError,
>)
    ensures
        match r {
            Ok(tp) => {
                &&& attachments_ok(post.attachments@)
                &&& tp.channel_id == channel_id
                &&& tp.text@ == markdown_text(post.text@)
                &&& photo_views(tp.photos@) == converted_photos(post.attachments@)
                &&& tp.is_pinned == post.spec_is_pinned()
            },
            Err(e) => {
                &&& !attachments_ok(post.attachments@)
                &&& e is MissingLargePhoto
            },
        },
{
    let mut photos: Vec<TelegramPostPhoto> = Vec::new();
    let n = post.attachments.len();
    let mut i: usize = 0;
    while i < n
        invariant
            n == post.attachments@.len(),
            i <= n,
            attachments_ok(post.attachments@.take(i as int)),
            photo_views(photos@) == converted_photos(post.attachments@.take(i as int)),
        decreases n - i,
    {
        match &post.attachments[i] {
            Attachment::Photo(photo) => {
                match find_w_size(&photo.sizes) {
                    Some(size) => {
                        photos.push(
                            TelegramPostPhoto {
                                url: size.url.clone(),
                                description: photo.description.clone(),
                            },
                        );
                    },
                    None => {
                        proof {
                            assert(post.attachments@[i as int] matches Attachment::Photo(p)
                                && !photo_has_w(p));
                        }
                        return Err(ConvertError::MissingLargePhoto);
                    },
                }
            },
            _ => {},
        }
        proof {
            assert(post.attachments@.take(i + 1).drop_last() =~= post.attachments@.take(i as int));
            assert(post.attachments@.take(i + 1).last() == post.attachments@[i as int]);
            assert(photo_views(photos@) =~= converted_photos(post.attachments@.take(i + 1)));
        }
        i = i + 1;
    }
    proof {
        assert(post.attachments@.take(n as int) =~= post.attachments@);
    }
    Ok(
        TelegramPost {
            channel_id,
            text: vk_format_to_markdown(post.text.as_str()),
            photos,
            is_pinned: post.is_pinned(),
        },
    )
}

/// Conversion is deterministic: it is a function of the post and channel
/// alone, so two conversions of equal inputs agree, both on the converted
/// message and on the failure.
pub proof fn lemma_conversion_deterministic(
    c1: TelegramChannelId,
    c2: TelegramChannelId,
    p1: Post,
    p2: Post,
)
    requires
        c1 == c2,
        p1 == p2,
    ensures
        attachments_ok(p1.attachments@) == attachments_ok(p2.attachments@),
        markdown_text(p1.text@) == markdown_text(p2.text@),
        converted_photos(p1.attachments@) == converted_photos(p2.attachments@),
        p1.spec_is_pinned() == p2.spec_is_pinned(),
{
}

} // verus!
