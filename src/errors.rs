//! Error kinds, and the decoder's native status codes that stand for them.
use vstd::prelude::*;

verus! {

/// Native codes of POSIX errno values, which the decoder negates.
pub const CODE_ENOENT: i32 = -2;
pub const CODE_EIO: i32 = -5;
pub const CODE_EAGAIN: i32 = -11;
pub const CODE_ENOMEM: i32 = -12;
pub const CODE_EACCES: i32 = -13;
pub const CODE_EBUSY: i32 = -16;
pub const CODE_EISDIR: i32 = -21;
pub const CODE_EINVAL: i32 = -22;

/// The decoder's own codes: a four-byte tag, little-endian, negated.
pub const CODE_BSF_NOT_FOUND: i32 = -1179861752;
pub const CODE_BUG: i32 = -558323010;
pub const CODE_BUFFER_TOO_SMALL: i32 = -1397118274;
pub const CODE_DECODER_NOT_FOUND: i32 = -1128613112;
pub const CODE_DEMUXER_NOT_FOUND: i32 = -1296385272;
pub const CODE_ENCODER_NOT_FOUND: i32 = -1129203192;
pub const CODE_EOF: i32 = -541478725;
pub const CODE_EXIT: i32 = -1414092869;
pub const CODE_EXTERNAL: i32 = -542398533;
pub const CODE_FILTER_NOT_FOUND: i32 = -1279870712;
pub const CODE_INVALIDDATA: i32 = -1094995529;
pub const CODE_MUXER_NOT_FOUND: i32 = -1481985528;
pub const CODE_OPTION_NOT_FOUND: i32 = -1414549496;
pub const CODE_PATCHWELCOME: i32 = -1163346256;
pub const CODE_PROTOCOL_NOT_FOUND: i32 = -1330794744;
pub const CODE_STREAM_NOT_FOUND: i32 = -1381258232;
pub const CODE_BUG2: i32 = -541545794;
pub const CODE_UNKNOWN: i32 = -1313558101;
pub const CODE_EXPERIMENTAL: i32 = -733130664;
pub const CODE_HTTP_BAD_REQUEST: i32 = -808465656;
pub const CODE_HTTP_UNAUTHORIZED: i32 = -825242872;
pub const CODE_HTTP_FORBIDDEN: i32 = -858797304;
pub const CODE_HTTP_NOT_FOUND: i32 = -875574520;
pub const CODE_HTTP_OTHER_4XX: i32 = -1482175736;
pub const CODE_HTTP_SERVER_ERROR: i32 = -1482175992;

/// What went wrong, as a caller can branch on it.
#[derive(Clone, Copy, Debug, PartialEq, Eq)]
pub enum MediaError {
    /// A code with no kind of its own, and the call that returned it.
    UnknownErrorCode { from: &'static str, code: i32 },
    NulError,
    StreamNotFound,
    DecoderNotFound,
    AllocationFailed,
    TemporarilyUnavailable,
    ProgrammerError,
    EOF,
    DevBusy,
    IOError,
    PermissionDenied,
    IsADir,
    UnsupportedFormat,
    OnceOnly,
    TooManySeconds,
    BsfNotFound,
    FfmpegBug,
    BufferTooSmall,
    DemuxerNotFound,
    EncoderNotFound,
    ExitRequested,
    ExternalError,
    FilterNotFound,
    InvalidData,
    MuxerNotFound,
    OptionNotFound,
    PatchWelcome,
    ProtocolNotFound,
    FfmpegUnknown,
    FeatureExperimental,
    FileNotFound,
    HttpBadRequest,
    HttpUnauthorized,
    HttpNotFound,
    HttpForbidden,
    HttpOther4xx,
    HttpServerError,
}

pub type MediaResult<T> = Result<T, MediaError>;

/// The kind that a native code names, if it names one.
pub open spec fn kind_of_code(code: i32) -> Option<MediaError> {
    if code == CODE_ENOENT { Some(MediaError::FileNotFound) }
    else if code == CODE_EIO { Some(MediaError::IOError) }
    else if code == CODE_EAGAIN { Some(MediaError::TemporarilyUnavailable) }
    else if code == CODE_ENOMEM { Some(MediaError::AllocationFailed) }
    else if code == CODE_EACCES { Some(MediaError::PermissionDenied) }
    else if code == CODE_EBUSY { Some(MediaError::DevBusy) }
    else if code == CODE_EISDIR { Some(MediaError::IsADir) }
    else if code == CODE_EINVAL { Some(MediaError::ProgrammerError) }
    else if code == CODE_BSF_NOT_FOUND { Some(MediaError::BsfNotFound) }
    else if code == CODE_BUG || code == CODE_BUG2 { Some(MediaError::FfmpegBug) }
    else if code == CODE_BUFFER_TOO_SMALL { Some(MediaError::BufferTooSmall) }
    else if code == CODE_DECODER_NOT_FOUND { Some(MediaError::DecoderNotFound) }
    else if code == CODE_DEMUXER_NOT_FOUND { Some(MediaError::DemuxerNotFound) }
    else if code == CODE_ENCODER_NOT_FOUND { Some(MediaError::EncoderNotFound) }
    else if code == CODE_EOF { Some(MediaError::EOF) }
    else if code == CODE_EXIT { Some(MediaError::ExitRequested) }
    else if code == CODE_EXTERNAL { Some(MediaError::ExternalError) }
    else if code == CODE_FILTER_NOT_FOUND { Some(MediaError::FilterNotFound) }
    else if code == CODE_INVALIDDATA { Some(MediaError::InvalidData) }
    else if code == CODE_MUXER_NOT_FOUND { Some(MediaError::MuxerNotFound) }
    else if code == CODE_OPTION_NOT_FOUND { Some(MediaError::OptionNotFound) }
    else if code == CODE_PATCHWELCOME { Some(MediaError::PatchWelcome) }
    else if code == CODE_PROTOCOL_NOT_FOUND { Some(MediaError::ProtocolNotFound) }
    else if code == CODE_STREAM_NOT_FOUND { Some(MediaError::StreamNotFound) }
    else if code == CODE_UNKNOWN { Some(MediaError::FfmpegUnknown) }
    else if code == CODE_EXPERIMENTAL { Some(MediaError::FeatureExperimental) }
    else if code == CODE_HTTP_BAD_REQUEST { Some(MediaError::HttpBadRequest) }
    else if code == CODE_HTTP_UNAUTHORIZED { Some(MediaError::HttpUnauthorized) }
    else if code == CODE_HTTP_FORBIDDEN { Some(MediaError::HttpForbidden) }
    else if code == CODE_HTTP_NOT_FOUND { Some(MediaError::HttpNotFound) }
    else if code == CODE_HTTP_OTHER_4XX { Some(MediaError::HttpOther4xx) }
    else if code == CODE_HTTP_SERVER_ERROR { Some(MediaError::HttpServerError) }
    else { None }
}

/// The error that `code`, returned by the call named `from`, stands for.
pub open spec fn error_of_code(from: &'static str, code: i32) -> MediaError {
    match kind_of_code(code) {
        Some(k) => k,
        None => MediaError::UnknownErrorCode { from, code },
    }
}

/// The native code that stands for a kind, for the kinds that have one.
pub open spec fn code_of_kind(e: MediaError) -> Option<i32> {
    match e {
        MediaError::FileNotFound => Some(CODE_ENOENT),
        MediaError::IOError => Some(CODE_EIO),
        MediaError::TemporarilyUnavailable => Some(CODE_EAGAIN),
        MediaError::AllocationFailed => Some(CODE_ENOMEM),
        MediaError::PermissionDenied => Some(CODE_EACCES),
        MediaError::DevBusy => Some(CODE_EBUSY),
        MediaError::IsADir => Some(CODE_EISDIR),
        MediaError::ProgrammerError => Some(CODE_EINVAL),
        MediaError::BsfNotFound => Some(CODE_BSF_NOT_FOUND),
        MediaError::FfmpegBug => Some(CODE_BUG),
        MediaError::BufferTooSmall => Some(CODE_BUFFER_TOO_SMALL),
        MediaError::DecoderNotFound => Some(CODE_DECODER_NOT_FOUND),
        MediaError::DemuxerNotFound => Some(CODE_DEMUXER_NOT_FOUND),
        MediaError::EncoderNotFound => Some(CODE_ENCODER_NOT_FOUND),
        MediaError::EOF => Some(CODE_EOF),
        MediaError::ExitRequested => Some(CODE_EXIT),
        MediaError::ExternalError => Some(CODE_EXTERNAL),
        MediaError::FilterNotFound => Some(CODE_FILTER_NOT_FOUND),
        MediaError::InvalidData => Some(CODE_INVALIDDATA),
        MediaError::MuxerNotFound => Some(CODE_MUXER_NOT_FOUND),
        MediaError::OptionNotFound => Some(CODE_OPTION_NOT_FOUND),
        MediaError::PatchWelcome => Some(CODE_PATCHWELCOME),
        MediaError::ProtocolNotFound => Some(CODE_PROTOCOL_NOT_FOUND),
        MediaError::StreamNotFound => Some(CODE_STREAM_NOT_FOUND),
        MediaError::FfmpegUnknown => Some(CODE_UNKNOWN),
        MediaError::FeatureExperimental => Some(CODE_EXPERIMENTAL),
        MediaError::HttpBadRequest => Some(CODE_HTTP_BAD_REQUEST),
        MediaError::HttpUnauthorized => Some(CODE_HTTP_UNAUTHORIZED),
        MediaError::HttpForbidden => Some(CODE_HTTP_FORBIDDEN),
        MediaError::HttpNotFound => Some(CODE_HTTP_NOT_FOUND),
        MediaError::HttpOther4xx => Some(CODE_HTTP_OTHER_4XX),
        MediaError::HttpServerError => Some(CODE_HTTP_SERVER_ERROR),
        MediaError::UnknownErrorCode { from, code } => Some(code),
        _ => None,
    }
}

impl MediaError {
    /// The error that a native status code, returned by the call named `from`,
    /// stands for.
    /// Every code that names no kind comes back as `UnknownErrorCode`, with
    /// the code and `from` kept.
    pub fn from_native_code(from: &'static str, code: i32) -> (r: MediaError)
        ensures
            r == error_of_code(from, code),
    {
        if code == CODE_ENOENT { MediaError::FileNotFound }
        else if code == CODE_EIO { MediaError::IOError }
        else if code == CODE_EAGAIN { MediaError::TemporarilyUnavailable }
        else if code == CODE_ENOMEM { MediaError::AllocationFailed }
        else if code == CODE_EACCES { MediaError::PermissionDenied }
        else if code == CODE_EBUSY { MediaError::DevBusy }
        else if code == CODE_EISDIR { MediaError::IsADir }
        else if code == CODE_EINVAL { MediaError::ProgrammerError }
        else if code == CODE_BSF_NOT_FOUND { MediaError::BsfNotFound }
        else if code == CODE_BUG || code == CODE_BUG2 { MediaError::FfmpegBug }
        else if code == CODE_BUFFER_TOO_SMALL { MediaError::BufferTooSmall }
        else if code == CODE_DECODER_NOT_FOUND { MediaError::DecoderNotFound }
        else if code == CODE_DEMUXER_NOT_FOUND { MediaError::DemuxerNotFound }
        else if code == CODE_ENCODER_NOT_FOUND { MediaError::EncoderNotFound }
        else if code == CODE_EOF { MediaError::EOF }
        else if code == CODE_EXIT { MediaError::ExitRequested }
        else if code == CODE_EXTERNAL { MediaError::ExternalError }
        else if code == CODE_FILTER_NOT_FOUND { MediaError::FilterNotFound }
        else if code == CODE_INVALIDDATA { MediaError::InvalidData }
        else if code == CODE_MUXER_NOT_FOUND { MediaError::MuxerNotFound }
        else if code == CODE_OPTION_NOT_FOUND { MediaError::OptionNotFound }
        else if code == CODE_PATCHWELCOME { MediaError::PatchWelcome }
        else if code == CODE_PROTOCOL_NOT_FOUND { MediaError::ProtocolNotFound }
        else if code == CODE_STREAM_NOT_FOUND { MediaError::StreamNotFound }
        else if code == CODE_UNKNOWN { MediaError::FfmpegUnknown }
        else if code == CODE_EXPERIMENTAL { MediaError::FeatureExperimental }
        else if code == CODE_HTTP_BAD_REQUEST { MediaError::HttpBadRequest }
        else if code == CODE_HTTP_UNAUTHORIZED { MediaError::HttpUnauthorized }
        else if code == CODE_HTTP_FORBIDDEN { MediaError::HttpForbidden }
        else if code == CODE_HTTP_NOT_FOUND { MediaError::HttpNotFound }
        else if code == CODE_HTTP_OTHER_4XX { MediaError::HttpOther4xx }
        else if code == CODE_HTTP_SERVER_ERROR { MediaError::HttpServerError }
        else { MediaError::UnknownErrorCode { from, code } }
    }

    /// The native code of this error, for the kinds that the decoder reports
    /// (an unknown code gives its own code back).
    pub fn to_native_code(&self) -> (r: Option<i32>)
        ensures
            r == code_of_kind(*self),
    {
        match self {
            MediaError::FileNotFound => Some(CODE_ENOENT),
            MediaError::IOError => Some(CODE_EIO),
            MediaError::TemporarilyUnavailable => Some(CODE_EAGAIN),
            MediaError::AllocationFailed => Some(CODE_ENOMEM),
            MediaError::PermissionDenied => Some(CODE_EACCES),
            MediaError::DevBusy => Some(CODE_EBUSY),
            MediaError::IsADir => Some(CODE_EISDIR),
            MediaError::ProgrammerError => Some(CODE_EINVAL),
            MediaError::BsfNotFound => Some(CODE_BSF_NOT_FOUND),
            MediaError::FfmpegBug => Some(CODE_BUG),
            MediaError::BufferTooSmall => Some(CODE_BUFFER_TOO_SMALL),
            MediaError::DecoderNotFound => Some(CODE_DECODER_NOT_FOUND),
            MediaError::DemuxerNotFound => Some(CODE_DEMUXER_NOT_FOUND),
            MediaError::EncoderNotFound => Some(CODE_ENCODER_NOT_FOUND),
            MediaError::EOF => Some(CODE_EOF),
            MediaError::ExitRequested => Some(CODE_EXIT),
            MediaError::ExternalError => Some(CODE_EXTERNAL),
            MediaError::FilterNotFound => Some(CODE_FILTER_NOT_FOUND),
            MediaError::InvalidData => Some(CODE_INVALIDDATA),
            MediaError::MuxerNotFound => Some(CODE_MUXER_NOT_FOUND),
            MediaError::OptionNotFound => Some(CODE_OPTION_NOT_FOUND),
            MediaError::PatchWelcome => Some(CODE_PATCHWELCOME),
            MediaError::ProtocolNotFound => Some(CODE_PROTOCOL_NOT_FOUND),
            MediaError::StreamNotFound => Some(CODE_STREAM_NOT_FOUND),
            MediaError::FfmpegUnknown => Some(CODE_UNKNOWN),
            MediaError::FeatureExperimental => Some(CODE_EXPERIMENTAL),
            MediaError::HttpBadRequest => Some(CODE_HTTP_BAD_REQUEST),
            MediaError::HttpUnauthorized => Some(CODE_HTTP_UNAUTHORIZED),
            MediaError::HttpForbidden => Some(CODE_HTTP_FORBIDDEN),
            MediaError::HttpNotFound => Some(CODE_HTTP_NOT_FOUND),
            MediaError::HttpOther4xx => Some(CODE_HTTP_OTHER_4XX),
            MediaError::HttpServerError => Some(CODE_HTTP_SERVER_ERROR),
            MediaError::UnknownErrorCode { from, code } => Some(*code),
            _ => None,
        }
    }
}

/// Every named kind with a native code is what that code maps to,
/// whatever the call name; an unknown-code error whose code names no kind
/// is what its code and call name map to.
pub proof fn lemma_code_round_trip(e: MediaError, from: &'static str)
    ensures
        !(e is UnknownErrorCode) ==> (code_of_kind(e) matches Some(c) ==> error_of_code(from, c)
            == e),
        (e is UnknownErrorCode && kind_of_code(e->code) is None) ==> code_of_kind(e) == Some(
            e->code,
        ) && error_of_code(e->from, e->code) == e,
{
}

} // verus!
