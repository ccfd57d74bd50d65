//! The `view_image` tool: which requests it accepts, where it looks for the
//! image, at which detail it sends it, and what it answers.
//!
//! Reading the file and encoding the image are done by the caller, between
//! the steps below.
use vstd::prelude::*;
use crate::models::{FunctionCallOutputBody, FunctionCallOutputContentItem, FunctionCallOutputPayload, ResponseInputItem};
use crate::text::str_eq;
use crate::user_input::ImageDetail;
use crate::util::{resolve_path, spec_is_absolute, spec_join_relative};

verus! {

/// The name of the tool.
pub const VIEW_IMAGE_TOOL_NAME: &'static str = "view_image";

/// The answer when the model cannot take images.
pub const VIEW_IMAGE_UNSUPPORTED_MESSAGE: &'static str =
    "view_image is not allowed because you do not support image inputs";

/// The answer when the turn has no environment to look in.
pub const VIEW_IMAGE_UNAVAILABLE_MESSAGE: &'static str = "view_image is unavailable in this session";

/// The detail at which an image is sent when no other is asked for.
pub const DEFAULT_IMAGE_DETAIL: ImageDetail = ImageDetail::High;

/// What the tool offers.
#[derive(Debug, Clone, Copy, PartialEq, Eq, Structural)]
pub struct ViewImageToolOptions {
    pub can_request_original_image_detail: bool,
}

/// The tool's handler.
#[derive(Debug, Clone, Copy, PartialEq, Eq, Structural)]
pub struct ViewImageHandler {
    pub options: ViewImageToolOptions,
}

impl Default for ViewImageHandler {
    fn default() -> (r: Self)
        ensures
            !r.options.can_request_original_image_detail,
    {
        ViewImageHandler { options: ViewImageToolOptions { can_request_original_image_detail: false } }
    }
}

/// The detail a call asks for.
#[derive(Debug, Clone, Copy, PartialEq, Eq, Structural)]
pub enum ViewImageDetail {
    High,
    Original,
}

/// How the image is prepared for the model.
#[derive(Debug, Clone, Copy, PartialEq, Eq, Structural)]
pub enum PromptImageMode {
    ResizeToFit,
    Original,
}

/// The message for a detail the tool does not know.
pub open spec fn unknown_detail_message(detail: Seq<char>) -> Seq<char> {
    "view_image.detail only supports `high` or `original`; omit `detail` for default high resized behavior, got `"@
        + detail + "`"@
}

/// The detail a call names.
pub open spec fn detail_of(detail: Option<Seq<char>>) -> Result<Option<ViewImageDetail>, Seq<char>> {
    match detail {
        None => Ok(None),
        Some(d) => if d == "high"@ {
            Ok(Some(ViewImageDetail::High))
        } else if d == "original"@ {
            Ok(Some(ViewImageDetail::Original))
        } else {
            Err(unknown_detail_message(d))
        },
    }
}

/// The optional text of an optional string slice.
pub open spec fn opt_str_view(v: Option<&str>) -> Option<Seq<char>> {
    match v {
        Some(s) => Some(s@),
        None => None,
    }
}

/// Reads the detail a call asks for.
pub fn parse_view_image_detail(detail: Option<&str>) -> (r: Result<Option<ViewImageDetail>, String>)
    ensures
        detail_of(opt_str_view(detail)) matches Ok(d) ==> r == Ok::<Option<ViewImageDetail>, String>(d),
        detail_of(opt_str_view(detail)) matches Err(m) ==> (r matches Err(e) && e@ == m),
{
    match detail {
        None => Ok(None),
        Some(d) => {
            if str_eq(d, "high") {
                Ok(Some(ViewImageDetail::High))
            } else if str_eq(d, "original") {
                Ok(Some(ViewImageDetail::Original))
            } else {
                let mut m = String::from_str(
                    "view_image.detail only supports `high` or `original`; omit `detail` for default high resized behavior, got `",
                );
                m.append(d);
                m.append("`");
                Err(m)
            }
        },
    }
}

/// What to load: the image's path and how to send it.
#[derive(Debug, Clone, PartialEq, Eq)]
pub struct ViewImageRequest {
    pub abs_path: String,
    pub image_mode: PromptImageMode,
    pub image_detail: ImageDetail,
}

/// Where a relative path given to the tool points: under the working directory.
pub open spec fn image_path(cwd: Seq<char>, path: Seq<char>) -> Seq<char> {
    if spec_is_absolute(path) {
        path
    } else {
        spec_join_relative(cwd, path)
    }
}

/// What a call to the tool comes to, as plain values: the path, mode and
/// detail to load, or the answer that refuses the call.
pub open spec fn prepare_outcome(
    supports_image_input: bool,
    path: Seq<char>,
    detail: Option<Seq<char>>,
    cwd: Option<Seq<char>>,
    can_request_original_detail: bool,
) -> Result<(Seq<char>, PromptImageMode, ImageDetail), Seq<char>> {
    if !supports_image_input {
        Err(VIEW_IMAGE_UNSUPPORTED_MESSAGE@)
    } else {
        match detail_of(detail) {
            Err(m) => Err(m),
            Ok(d) => match cwd {
                None => Err(VIEW_IMAGE_UNAVAILABLE_MESSAGE@),
                Some(c) => {
                    let original = can_request_original_detail && d == Some(ViewImageDetail::Original);
                    Ok(
                        (
                            image_path(c, path),
                            if original {
                                PromptImageMode::Original
                            } else {
                                PromptImageMode::ResizeToFit
                            },
                            if original {
                                ImageDetail::Original
                            } else {
                                DEFAULT_IMAGE_DETAIL
                            },
                        ),
                    )
                },
            },
        }
    }
}

/// A prepared request as plain values.
pub open spec fn request_view(r: Result<ViewImageRequest, String>) -> Result<(Seq<char>, PromptImageMode, ImageDetail), Seq<char>> {
    match r {
        Ok(req) => Ok((req.abs_path@, req.image_mode, req.image_detail)),
        Err(m) => Err(m@),
    }
}

impl ViewImageHandler {
    /// A handler with the given options.
    pub fn new(options: ViewImageToolOptions) -> (r: ViewImageHandler)
        ensures
            r.options == options,
    {
        ViewImageHandler { options }
    }

    /// The tool's options.
    pub fn options(&self) -> (r: ViewImageToolOptions)
        ensures
            r == self.options,
    {
        self.options
    }

    /// Decides what to load for a call, or why the call is refused: the
    /// model must take images, the detail must be known, and the turn must
    /// have a working directory. The original resolution is kept only when
    /// asked for and allowed.
    pub fn prepare(
        &self,
        supports_image_input: bool,
        path: &str,
        detail: Option<&str>,
        cwd: Option<&str>,
        can_request_original_detail: bool,
    ) -> (r: Result<ViewImageRequest, String>)
        ensures
            request_view(r) == prepare_outcome(
                supports_image_input,
                path@,
                opt_str_view(detail),
                opt_str_view(cwd),
                can_request_original_detail,
            ),
    {
        if !supports_image_input {
            return Err(String::from_str(VIEW_IMAGE_UNSUPPORTED_MESSAGE));
        }
        let detail = match parse_view_image_detail(detail) {
            Ok(d) => d,
            Err(e) => return Err(e),
        };
        let cwd = match cwd {
            Some(c) => c,
            None => return Err(String::from_str(VIEW_IMAGE_UNAVAILABLE_MESSAGE)),
        };
        let abs_path = resolve_path(cwd, path);
        let use_original_detail = can_request_original_detail && match detail {
            Some(ViewImageDetail::Original) => true,
            _ => false,
        };
        let image_mode = if use_original_detail {
            PromptImageMode::Original
        } else {
            PromptImageMode::ResizeToFit
        };
        let image_detail = if use_original_detail {
            ImageDetail::Original
        } else {
            DEFAULT_IMAGE_DETAIL
        };
        Ok(ViewImageRequest { abs_path, image_mode, image_detail })
    }
}

/// Why the image file could not be used.
#[derive(Debug, Clone, PartialEq, Eq)]
pub enum ViewImageFileError {
    /// Its metadata could not be read.
    Locate(String),
    /// It is not a regular file.
    NotAFile,
    /// Its bytes could not be read.
    Read(String),
    /// It could not be decoded or resized.
    Process(String),
}

/// The answer to the model for a file that could not be used.
pub open spec fn file_error_message(path: Seq<char>, e: ViewImageFileError) -> Seq<char> {
    match e {
        ViewImageFileError::Locate(err) => "unable to locate image at `"@ + path + "`: "@ + err@,
        ViewImageFileError::NotAFile => "image path `"@ + path + "` is not a file"@,
        ViewImageFileError::Read(err) => "unable to read image at `"@ + path + "`: "@ + err@,
        ViewImageFileError::Process(err) => "unable to process image at `"@ + path + "`: "@ + err@,
    }
}

impl ViewImageFileError {
    /// The answer to the model for this failure on the image at `path`.
    pub fn message(&self, path: &str) -> (r: String)
        ensures
            r@ == file_error_message(path@, *self),
    {
        match self {
            ViewImageFileError::Locate(err) => {
                let mut m = String::from_str("unable to locate image at `");
                m.append(path);
                m.append("`: ");
                m.append(err.as_str());
                m
            },
            ViewImageFileError::NotAFile => {
                let mut m = String::from_str("image path `");
                m.append(path);
                m.append("` is not a file");
                m
            },
            ViewImageFileError::Read(err) => {
                let mut m = String::from_str("unable to read image at `");
                m.append(path);
                m.append("`: ");
                m.append(err.as_str());
                m
            },
            ViewImageFileError::Process(err) => {
                let mut m = String::from_str("unable to process image at `");
                m.append(path);
                m.append("`: ");
                m.append(err.as_str());
                m
            },
        }
    }
}

/// The image the tool returns.
#[derive(Debug, Clone, PartialEq, Eq)]
pub struct ViewImageOutput {
    pub image_url: String,
    pub image_detail: ImageDetail,
}

impl ViewImageOutput {
    /// What is logged for the call: the image's URL.
    pub fn log_preview(&self) -> (r: String)
        ensures
            r == self.image_url,
    {
        self.image_url.clone()
    }

    /// The call always succeeded once it has an image.
    pub fn success_for_logging(&self) -> (r: bool)
        ensures
            r,
    {
        true
    }

    /// The answer to the call: one image part, marked successful.
    pub fn to_response_item(&self, call_id: &str) -> (r: ResponseInputItem)
        ensures
            r matches ResponseInputItem::FunctionCallOutput { call_id: c, output } && c@ == call_id@
                && output.success == Some(true) && (output.body matches FunctionCallOutputBody::ContentItems(
                items,
            ) && items@.len() == 1 && items@[0] == (FunctionCallOutputContentItem::InputImage {
                image_url: self.image_url,
                detail: Some(self.image_detail),
            })),
    {
        let mut items: Vec<FunctionCallOutputContentItem> = Vec::new();
        items.push(
            FunctionCallOutputContentItem::InputImage {
                image_url: self.image_url.clone(),
                detail: Some(self.image_detail),
            },
        );
        ResponseInputItem::FunctionCallOutput {
            call_id: String::from_str(call_id),
            output: FunctionCallOutputPayload {
                body: FunctionCallOutputBody::ContentItems(items),
                success: Some(true),
            },
        }
    }
}

} // verus!
