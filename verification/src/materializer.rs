//! From an image reference to the image on the display or in storage: where
//! to fetch it, where it goes, and what each step's outcome means for the
//! resolution.
//!
//! The decoders themselves are not called from here: they give no promise to
//! return on every byte string, and the functions of this library do.

use crate::error::ResolveError;
use crate::uri::{resolved, UriResolver};
use vstd::prelude::*;
use vstd::string::*;

verus! {

/// The column at which an image is rendered.
pub const RENDER_COLUMN: u16 = 1;

/// The row at which the image of a token without attributes is rendered.
pub const RENDER_FIRST_ROW: i16 = 36;

/// The width of a rendered image, in character cells.
pub const RENDER_WIDTH: u32 = 80;

/// The height of a rendered image, in character cells.
pub const RENDER_HEIGHT: u32 = 40;

/// The rows that a table of `count` attributes pushes the image down by:
/// `1.4 * count`, rounded to the nearest whole number.
pub open spec fn attribute_rows(count: nat) -> nat {
    (14 * count + 5) / 10
}

/// The row at which the image of a token with `count` attributes is rendered.
pub open spec fn vertical_offset_of(count: nat) -> nat {
    (RENDER_FIRST_ROW + attribute_rows(count)) as nat
}

/// `attribute_rows(count)` is the whole number nearest to `1.4 * count`: it
/// lies less than a half from it. (No `1.4 * count` lies midway between two
/// whole numbers.)
pub proof fn lemma_attribute_rows_nearest(count: nat)
    ensures
        14 * count - 5 < 10 * attribute_rows(count) < 14 * count + 5,
{
    let scaled = 14 * count + 5;
    assert(scaled % 10 != 0) by {
        assert(scaled % 2 == 1) by {
            assert(scaled == 2 * (7 * count + 2) + 1);
        }
        assert(scaled % 10 == 0 ==> scaled % 2 == 0) by {
            if scaled % 10 == 0 {
                assert(scaled == 2 * (5 * (scaled / 10)));
            }
        }
    }
}

/// Where on the display an image goes, in character cells.
#[derive(Clone, Copy, Debug, PartialEq, Eq, Structural)]
pub struct Layout {
    pub column: u16,
    pub row: i16,
    pub width: u32,
    pub height: u32,
}

/// The layout of the image of a token with `count` attributes, where the
/// display can address its row.
pub open spec fn layout_of(count: nat) -> Option<Layout> {
    if vertical_offset_of(count) <= i16::MAX {
        Some(
            Layout {
                column: RENDER_COLUMN,
                row: vertical_offset_of(count) as i16,
                width: RENDER_WIDTH,
                height: RENDER_HEIGHT,
            },
        )
    } else {
        None
    }
}

/// The layout of the image of a token with `attribute_count` attributes.
/// `None` where the row lies beyond those that a display addresses.
pub fn layout_for(attribute_count: usize) -> (layout: Option<Layout>)
    ensures
        layout == layout_of(attribute_count as nat),
{
    if attribute_count > 23379 {
        None
    } else {
        let scaled: u64 = 14 * (attribute_count as u64) + 5;
        let row: u64 = 36 + scaled / 10;
        Some(
            Layout {
                column: RENDER_COLUMN,
                row: row as i16,
                width: RENDER_WIDTH,
                height: RENDER_HEIGHT,
            },
        )
    }
}

/// What it takes to render an image: the address to fetch it from and the
/// place on the display.
#[derive(Debug, PartialEq, Eq)]
pub struct RenderPlan {
    pub url: String,
    pub layout: Layout,
}

/// What it takes to save an image: the address to fetch it from and the path
/// to write it to.
#[derive(Debug, PartialEq, Eq)]
pub struct SavePlan {
    pub url: String,
    pub path: String,
}

/// What became of the request for an image, and of the decoding of what came
/// back. The format is told by the content of the bytes, never by the name
/// under which they were fetched.
#[derive(Clone, Copy, Debug, PartialEq, Eq, Structural)]
pub enum ImageOutcome {
    /// The request got no response.
    NoResponse,
    /// The bytes that came back are no image of a known format.
    Undecodable,
    /// The bytes were decoded to a bitmap of this size, in pixels.
    Decoded { width: u32, height: u32 },
}

/// The size of a decoded image, in pixels.
#[derive(Clone, Copy, Debug, PartialEq, Eq, Structural)]
pub struct Dimensions {
    pub width: u32,
    pub height: u32,
}

/// What `outcome` means for the resolution: the size of the image that goes
/// on to the display or to storage, or the failure that ends it.
pub open spec fn materialized(outcome: ImageOutcome) -> Result<Dimensions, ResolveError> {
    match outcome {
        ImageOutcome::NoResponse => Err(ResolveError::Fetch),
        ImageOutcome::Undecodable => Err(ResolveError::Decode),
        ImageOutcome::Decoded { width, height } => Ok(Dimensions { width, height }),
    }
}

/// Plans the fetch of an image through one gateway.
pub struct ImageMaterializer {
    /// Where content-addressed references are fetched.
    pub uris: UriResolver,
}

impl ImageMaterializer {
    /// A materializer that fetches through `uris`.
    pub fn new(uris: UriResolver) -> (materializer: ImageMaterializer)
        ensures
            materializer.uris == uris,
    {
        ImageMaterializer { uris }
    }

    /// The plan to render the image at `image_uri` below a table of
    /// `attribute_count` attributes. `None` where the display cannot address
    /// the row.
    pub fn render_plan(&self, image_uri: &str, attribute_count: usize) -> (plan: Option<RenderPlan>)
        ensures
            plan is Some <==> layout_of(attribute_count as nat) is Some,
            plan matches Some(p) ==> p.url@ == resolved(self.uris.gateway@, image_uri@) && Some(
                p.layout,
            ) == layout_of(attribute_count as nat),
    {
        match layout_for(attribute_count) {
            None => None,
            Some(layout) => Some(RenderPlan { url: self.uris.resolve(image_uri), layout }),
        }
    }

    /// The plan to save the image at `image_uri` under `destination_path`.
    pub fn save_plan(&self, image_uri: &str, destination_path: &str) -> (plan: SavePlan)
        ensures
            plan.url@ == resolved(self.uris.gateway@, image_uri@),
            plan.path@ == destination_path@,
    {
        SavePlan { url: self.uris.resolve(image_uri), path: String::from_str(destination_path) }
    }
}

/// Judges the fetch and the decoding of an image. A request without a
/// response fails as [`ResolveError::Fetch`], bytes that are no image as
/// [`ResolveError::Decode`]; a decoded image goes on with the size it was
/// decoded to.
pub fn decoded(outcome: &ImageOutcome) -> (image: Result<Dimensions, ResolveError>)
    ensures
        image == materialized(*outcome),
{
    match outcome {
        ImageOutcome::NoResponse => Err(ResolveError::Fetch),
        ImageOutcome::Undecodable => Err(ResolveError::Decode),
        ImageOutcome::Decoded { width, height } => Ok(
            Dimensions { width: *width, height: *height },
        ),
    }
}

/// What a save comes to, from the outcomes of its steps in the order in which
/// they are taken: the directory is made, the image is fetched and decoded,
/// the image is written. The first step that failed decides; the outcomes of
/// the steps after it are not looked at.
pub open spec fn save_result(
    directory_made: bool,
    image: ImageOutcome,
    written: bool,
) -> Result<Dimensions, ResolveError> {
    if !directory_made {
        Err(ResolveError::Io)
    } else {
        match materialized(image) {
            Err(e) => Err(e),
            Ok(size) => if written {
                Ok(size)
            } else {
                Err(ResolveError::Io)
            },
        }
    }
}

/// Judges a save from the outcomes of its steps. A directory that could not
/// be made and an image that could not be written fail it as
/// [`ResolveError::Io`]; in between, the fetch and the decoding fail it as
/// [`decoded`] says.
pub fn saved(directory_made: bool, image: &ImageOutcome, written: bool) -> (outcome: Result<
    Dimensions,
    ResolveError,
>)
    ensures
        outcome == save_result(directory_made, *image, written),
{
    if !directory_made {
        return Err(ResolveError::Io);
    }
    match decoded(image) {
        Err(e) => Err(e),
        Ok(size) => if written {
            Ok(size)
        } else {
            Err(ResolveError::Io)
        },
    }
}

} // verus!
