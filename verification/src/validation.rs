//! The checks that a request passes before anything is stored: its declared
//! content type, the size of its body, and the fields that its kind requires.

use vstd::prelude::*;
use actix_web::web::BytesMut;
use crate::diets::models::{NewDiet, NewDietView, ReqDiet, ReqDietView};
use crate::errors::ApiError;
use crate::meals::models::{NewMeal, NewMealView, ReqDish, ReqDishView, ReqMeal, ReqMealView};

verus! {

/// The greatest number of bytes that a request body may have.
pub const MAX_BODY_BYTES: usize = 262_144;

/// The only media type in which a body is accepted.
pub open spec fn json_media_type() -> Seq<char> {
    "application/json"@
}

/// Whether a `Content-Type` header, if there is one, declares JSON; the
/// match is exact.
pub open spec fn declares_json(content_type: Option<Seq<char>>) -> bool {
    content_type == Some(json_media_type())
}

/// The view of an optional header value.
pub open spec fn header_view(header: Option<&str>) -> Option<Seq<char>> {
    match header {
        Some(h) => Some(h@),
        None => None,
    }
}

/// Accepts a request whose `Content-Type` header is exactly the JSON media
/// type and refuses every other, a request without the header included.
pub fn check_content_type(content_type: Option<&str>) -> (r: Result<(), ApiError>)
    ensures
        declares_json(header_view(content_type)) ==> r == Ok::<(), ApiError>(()),
        !declares_json(header_view(content_type)) ==> r == Err::<(), ApiError>(
            ApiError::ContentTypeError,
        ),
{
    match content_type {
        Some(h) => {
            let given = h.to_owned();
            let expected = "application/json".to_owned();
            if given == expected {
                Ok(())
            } else {
                Err(ApiError::ContentTypeError)
            }
        },
        None => Err(ApiError::ContentTypeError),
    }
}

/// The byte buffer of the HTTP server, `bytes::BytesMut`, in which a body
/// is gathered. Nothing is known of what is inside it but through [`held`].
#[verifier::external_type_specification]
#[verifier::external_body]
pub struct ExBytesMut(BytesMut);

/// The bytes that a buffer holds, in their order.
pub uninterp spec fn held(buffer: BytesMut) -> Seq<u8>;

/// `BytesMut::new`: the new buffer holds no bytes.
pub assume_specification[ BytesMut::new ]() -> (buffer: BytesMut)
    ensures
        held(buffer) == Seq::<u8>::empty(),
;

/// `BytesMut::len`: the number of bytes that the buffer holds.
pub assume_specification[ BytesMut::len ](buffer: &BytesMut) -> (n: usize)
    ensures
        n == held(*buffer).len(),
;

/// `BytesMut::extend_from_slice`: the buffer holds what it held, and after
/// it the bytes of the slice.
pub assume_specification[ BytesMut::extend_from_slice ](buffer: &mut BytesMut, extend: &[u8])
    ensures
        held(*final(buffer)) == held(*old(buffer)) + extend@,
;

/// The slice that `BytesMut` dereferences to, copied: the bytes that the
/// buffer holds.
#[verifier::external_body]
fn copy_of(buffer: &BytesMut) -> (bytes: Vec<u8>)
    ensures
        bytes@ == held(*buffer),
{
    buffer.to_vec()
}

/// The bytes of a request body read so far. It never holds more than
/// [`MAX_BODY_BYTES`] bytes.
#[derive(Debug, PartialEq, Eq)]
pub struct BodyBuffer {
    bytes: BytesMut,
}

impl View for BodyBuffer {
    type V = Seq<u8>;

    closed spec fn view(&self) -> Seq<u8> {
        held(self.bytes)
    }
}

impl BodyBuffer {
    #[verifier::type_invariant]
    spec fn within_limit(&self) -> bool {
        held(self.bytes).len() <= MAX_BODY_BYTES
    }

    /// A buffer that holds nothing yet.
    pub fn new() -> (buffer: BodyBuffer)
        ensures
            buffer@ == Seq::<u8>::empty(),
    {
        BodyBuffer { bytes: BytesMut::new() }
    }

    /// The number of bytes read so far.
    pub fn len(&self) -> (n: usize)
        ensures
            n == self@.len(),
            n <= MAX_BODY_BYTES,
    {
        proof {
            use_type_invariant(self);
        }
        self.bytes.len()
    }

    /// Takes in the next chunk of the body. A chunk with which the body would
    /// grow beyond [`MAX_BODY_BYTES`] is refused; any other chunk is appended.
    pub fn accept(self, chunk: &[u8]) -> (r: Result<BodyBuffer, ApiError>)
        ensures
            self@.len() + chunk@.len() <= MAX_BODY_BYTES ==> (r matches Ok(grown) && grown@
                == self@ + chunk@),
            self@.len() + chunk@.len() > MAX_BODY_BYTES ==> (r matches Err(e) && e
                == ApiError::PayloadTooLarge),
    {
        proof {
            use_type_invariant(&self);
        }
        let mut bytes = self.bytes;
        if chunk.len() > MAX_BODY_BYTES - bytes.len() {
            Err(ApiError::PayloadTooLarge)
        } else {
            bytes.extend_from_slice(chunk);
            Ok(BodyBuffer { bytes })
        }
    }

    /// Hands out the bytes that were read.
    pub fn into_bytes(self) -> (bytes: Vec<u8>)
        ensures
            bytes@ == self@,
            bytes@.len() <= MAX_BODY_BYTES,
    {
        proof {
            use_type_invariant(&self);
        }
        copy_of(&self.bytes)
    }
}

/// The name under which a dish is to be created, where the request names one:
/// the name must be present and not empty.
pub open spec fn valid_dish(req: ReqDishView) -> Option<Seq<char>> {
    match req.name {
        Some(name) if name.len() > 0 => Some(name),
        _ => None,
    }
}

/// The meal that a request describes, where it is complete: the name and all
/// three dishes must be present, and the name not empty.
pub open spec fn valid_meal(req: ReqMealView) -> Option<NewMealView> {
    match (req.name, req.appetizer, req.main, req.dessert) {
        (Some(name), Some(appetizer), Some(main), Some(dessert)) if name.len() > 0 => Some(
            NewMealView { name, appetizer, main, dessert },
        ),
        _ => None,
    }
}

/// The diet that a request describes, where it is complete: the name and all
/// three bounds must be present, and the name not empty.
pub open spec fn valid_diet(req: ReqDietView) -> Option<NewDietView> {
    match (req.name, req.cal, req.sodium, req.sugar) {
        (Some(name), Some(cal), Some(sodium), Some(sugar)) if name.len() > 0 => Some(
            NewDietView { name, cal, sodium, sugar },
        ),
        _ => None,
    }
}

/// Checks the body of a request that creates a dish and hands out the name.
pub fn validate_dish(req: ReqDish) -> (r: Result<String, ApiError>)
    ensures
        match valid_dish(req@) {
            Some(name) => r matches Ok(given) && given@ == name,
            None => r == Err::<String, ApiError>(ApiError::MissingField),
        },
{
    match req.name {
        Some(name) => {
            if name.as_str().is_empty() {
                Err(ApiError::MissingField)
            } else {
                Ok(name)
            }
        },
        None => Err(ApiError::MissingField),
    }
}

/// Checks the body of a request that creates or replaces a meal and hands
/// out the meal that it describes.
pub fn validate_meal(req: ReqMeal) -> (r: Result<NewMeal, ApiError>)
    ensures
        match valid_meal(req@) {
            Some(meal) => r matches Ok(given) && given@ == meal,
            None => r matches Err(e) && e == ApiError::MissingField,
        },
{
    match (req.name, req.appetizer, req.main, req.dessert) {
        (Some(name), Some(appetizer), Some(main), Some(dessert)) => {
            if name.as_str().is_empty() {
                Err(ApiError::MissingField)
            } else {
                Ok(NewMeal { name, appetizer, main, dessert })
            }
        },
        _ => Err(ApiError::MissingField),
    }
}

/// Checks the body of a request that creates a diet and hands out the diet
/// that it describes.
pub fn validate_diet(req: ReqDiet) -> (r: Result<NewDiet, ApiError>)
    ensures
        match valid_diet(req@) {
            Some(diet) => r matches Ok(given) && given@ == diet,
            None => r matches Err(e) && e == ApiError::MissingField,
        },
{
    match (req.name, req.cal, req.sodium, req.sugar) {
        (Some(name), Some(cal), Some(sodium), Some(sugar)) => {
            if name.as_str().is_empty() {
                Err(ApiError::MissingField)
            } else {
                Ok(NewDiet { name, cal, sodium, sugar })
            }
        },
        _ => Err(ApiError::MissingField),
    }
}

} // verus!
