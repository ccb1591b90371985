//! What a request says about what it accepts and what it carries.

use vstd::prelude::*;

use crate::http::{spec_media_type, HeaderText, MediaType};
use crate::text::{is_word, push_text, spec_split, spec_views, split_char};

verus! {

/// What can go wrong when a request is read.
#[derive(Debug, PartialEq, Eq)]
#[non_exhaustive]
pub enum ParseError {
    /// The request has no `Content-Type` that fits what is asked of it.
    InvalidContentType,
    /// The request is no form.
    NotFormData,
    /// Anything else, told in words.
    Other(String),
}

impl ParseError {
    /// An error that is told in the words of `reason`.
    pub fn other(reason: &str) -> (error: ParseError)
        ensures
            error matches ParseError::Other(text) && text@ == reason@,
    {
        ParseError::Other(reason.to_owned())
    }

    /// The error in words.
    pub open spec fn spec_message(&self) -> Seq<char> {
        match self {
            ParseError::InvalidContentType => "The request did not have a valid Content-Type header."@,
            ParseError::NotFormData => "The Hyper request Content-Type sub-level Mime was not `FormData`."@,
            ParseError::Other(reason) => "Other error: "@ + reason@,
        }
    }

    /// The error in words.
    pub fn message(&self) -> (message: String)
        ensures
            message@ == self.spec_message(),
    {
        match self {
            ParseError::InvalidContentType => {
                "The request did not have a valid Content-Type header.".to_owned()
            },
            ParseError::NotFormData => {
                "The Hyper request Content-Type sub-level Mime was not `FormData`.".to_owned()
            },
            ParseError::Other(reason) => {
                let mut message = String::new();
                push_text(&mut message, "Other error: ");
                push_text(&mut message, reason.as_str());
                assert(message@ =~= "Other error: "@ + reason@);
                message
            },
        }
    }

    /// The page with which the error is answered: `400 Bad Request`, with
    /// the error in words as its cause.
    pub fn write(&self) -> (page: ErrorPage)
        ensures
            page.status == 400,
            page.brief@ == "parse http data failed."@,
            page.cause@ == self.spec_message(),
    {
        ErrorPage { status: 400, brief: "parse http data failed.", cause: self.message() }
    }
}

/// The page that tells of an error.
#[derive(Debug, PartialEq, Eq)]
pub struct ErrorPage {
    /// The status of the response.
    pub status: u16,
    /// What went wrong, in brief.
    pub brief: &'static str,
    /// What went wrong, at length.
    pub cause: String,
}

/// The media types of the `pieces` that spell one, in their order.
pub open spec fn spec_media_types(pieces: Seq<Seq<char>>) -> Seq<(Seq<char>, Seq<char>)>
    decreases pieces.len(),
{
    if pieces.len() == 0 {
        Seq::empty()
    } else {
        match spec_media_type(pieces.last()) {
            Some(media) => spec_media_types(pieces.drop_last()).push(media),
            None => spec_media_types(pieces.drop_last()),
        }
    }
}

/// The type and subtype of each of `list`.
pub open spec fn spec_media_pairs(list: Seq<MediaType>) -> Seq<(Seq<char>, Seq<char>)> {
    Seq::new(list.len(), |i: int| (list[i].kind@, list[i].subtype@))
}

/// The media types that a request accepts, given its `Accept` header: those
/// that the pieces between the commas spell, in their order. A piece that
/// spells none is passed over.
pub fn accept(header: &HeaderText) -> (list: Vec<MediaType>)
    ensures
        spec_media_pairs(list@) == match header {
            HeaderText::Text(value) => spec_media_types(spec_split(value@, ',')),
            _ => Seq::empty(),
        },
{
    let mut list: Vec<MediaType> = Vec::new();
    match header {
        HeaderText::Text(value) => {
            let pieces = split_char(value.as_str(), ',');
            let mut i: usize = 0;
            assert(spec_views(pieces@).take(0) =~= Seq::empty());
            while i < pieces.len()
                invariant
                    i <= pieces.len(),
                    spec_media_pairs(list@) == spec_media_types(spec_views(pieces@).take(i as int)),
                decreases pieces.len() - i,
            {
                let ghost views = spec_views(pieces@);
                let ghost before = spec_media_pairs(list@);
                proof {
                    assert(views.take(i + 1).drop_last() =~= views.take(i as int));
                    assert(views.take(i + 1).last() == pieces@[i as int]@);
                }
                match MediaType::parse(pieces[i].as_str()) {
                    Some(media) => {
                        list.push(media);
                        assert(spec_media_pairs(list@) =~= before.push((media.kind@, media.subtype@)));
                    },
                    None => {},
                }
                i += 1;
            }
            assert(spec_views(pieces@).take(pieces@.len() as int) =~= spec_views(pieces@));
        },
        _ => {
            assert(spec_media_pairs(list@) =~= Seq::empty());
        },
    }
    list
}

/// The first media type that a request accepts, given its `Accept` header.
pub fn first_accept(header: &HeaderText) -> (first: Option<MediaType>)
    ensures
        ({
            let all = match header {
                HeaderText::Text(value) => spec_media_types(spec_split(value@, ',')),
                _ => Seq::empty(),
            };
            match first {
                Some(media) => all.len() > 0 && all[0] == (media.kind@, media.subtype@),
                None => all.len() == 0,
            }
        }),
{
    let mut list = accept(header);
    let ghost all = spec_media_pairs(list@);
    if list.len() > 0 {
        assert(all[0] == (list@[0].kind@, list@[0].subtype@));
        let first = list.remove(0);
        Some(first)
    } else {
        None
    }
}

/// The media type of what a request carries, given its `Content-Type` header.
pub fn content_type(header: &HeaderText) -> (media: Option<MediaType>)
    ensures
        match header {
            HeaderText::Text(value) => match media {
                Some(parsed) => spec_media_type(value@) == Some((parsed.kind@, parsed.subtype@)),
                None => spec_media_type(value@) is None,
            },
            _ => media is None,
        },
{
    match header {
        HeaderText::Text(value) => MediaType::parse(value.as_str()),
        _ => None,
    }
}

/// How the body of a request is read.
#[derive(Clone, Copy, Debug, PartialEq, Eq, Structural)]
pub enum BodyFormat {
    /// As a form.
    Form,
    /// As JSON.
    Json,
}

/// Whether a body of the media type is a form, url-encoded or in parts.
pub open spec fn spec_is_form(kind: Seq<char>, subtype: Seq<char>) -> bool {
    subtype == "x-www-form-urlencoded"@ || subtype == "form-data"@
}

/// Whether a form can be read from a body of the media type: it is
/// url-encoded, or of a `multipart` type.
pub open spec fn spec_holds_form_data(kind: Seq<char>, subtype: Seq<char>) -> bool {
    subtype == "x-www-form-urlencoded"@ || kind == "multipart"@
}

/// Whether a form can be read from the body of a request with this content
/// type. Where it cannot, the request is no form.
pub fn form_data(content_type: &Option<MediaType>) -> (readable: Result<(), ParseError>)
    ensures
        readable is Ok <==> (content_type matches Some(media) && spec_holds_form_data(
            media.kind@,
            media.subtype@,
        )),
        readable matches Err(error) ==> error == ParseError::NotFormData,
{
    match content_type {
        Some(media) => {
            if is_word(media.subtype.as_str(), "x-www-form-urlencoded") || is_word(
                media.kind.as_str(),
                "multipart",
            ) {
                Ok(())
            } else {
                Err(ParseError::NotFormData)
            }
        },
        None => Err(ParseError::NotFormData),
    }
}

/// How the body of a request with this content type is read: a form as a
/// form, JSON as JSON, and nothing else at all.
pub open spec fn spec_body_format(content_type: Option<(Seq<char>, Seq<char>)>) -> Option<BodyFormat> {
    match content_type {
        Some((kind, subtype)) => if spec_is_form(kind, subtype) {
            Some(BodyFormat::Form)
        } else if subtype == "json"@ {
            Some(BodyFormat::Json)
        } else {
            None
        },
        None => None,
    }
}

/// How the body of a request with this content type is read, as a form or as JSON.
pub fn parse_body(content_type: &Option<MediaType>) -> (format: Result<BodyFormat, ParseError>)
    ensures
        match format {
            Ok(found) => spec_body_format(
                match content_type {
                    Some(media) => Some((media.kind@, media.subtype@)),
                    None => None,
                },
            ) == Some(found),
            Err(error) => error == ParseError::InvalidContentType && spec_body_format(
                match content_type {
                    Some(media) => Some((media.kind@, media.subtype@)),
                    None => None,
                },
            ) is None,
        },
{
    match content_type {
        Some(media) => {
            if is_word(media.subtype.as_str(), "x-www-form-urlencoded") || is_word(
                media.subtype.as_str(),
                "form-data",
            ) {
                Ok(BodyFormat::Form)
            } else if is_word(media.subtype.as_str(), "json") {
                Ok(BodyFormat::Json)
            } else {
                Err(ParseError::InvalidContentType)
            }
        },
        None => Err(ParseError::InvalidContentType),
    }
}

/// Whether the body of a request with this content type is read as JSON.
pub fn parse_json(content_type: &Option<MediaType>) -> (readable: Result<(), ParseError>)
    ensures
        readable is Ok <==> (content_type matches Some(media) && media.subtype@ == "json"@),
        readable matches Err(error) ==> error == ParseError::InvalidContentType,
{
    match content_type {
        Some(media) => {
            if is_word(media.subtype.as_str(), "json") {
                Ok(())
            } else {
                Err(ParseError::InvalidContentType)
            }
        },
        None => Err(ParseError::InvalidContentType),
    }
}

/// Whether the body of a request with this content type is read as a form.
pub fn parse_form(content_type: &Option<MediaType>) -> (readable: Result<(), ParseError>)
    ensures
        readable is Ok <==> (content_type matches Some(media) && spec_is_form(
            media.kind@,
            media.subtype@,
        )),
        readable matches Err(error) ==> error == ParseError::InvalidContentType,
{
    match content_type {
        Some(media) => {
            if is_word(media.subtype.as_str(), "x-www-form-urlencoded") || is_word(
                media.subtype.as_str(),
                "form-data",
            ) {
                Ok(())
            } else {
                Err(ParseError::InvalidContentType)
            }
        },
        None => Err(ParseError::InvalidContentType),
    }
}

/// Takes `received` more bytes of a body of which `so_far` have been read,
/// where no more than `max_size` may be read in all. More than that is an
/// error that says so.
pub fn payload_with_max_size(so_far: usize, received: usize, max_size: usize) -> (total: Result<
    usize,
    ParseError,
>)
    ensures
        match total {
            Ok(read) => read == so_far + received && read <= max_size,
            Err(error) => {
                &&& so_far + received > max_size
                &&& error matches ParseError::Other(text) && text@ == "length limit exceeded"@
            },
        },
{
    if so_far > max_size || received > max_size - so_far {
        Err(ParseError::other("length limit exceeded"))
    } else {
        Ok(so_far + received)
    }
}

} // verus!
