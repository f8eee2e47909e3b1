//! Preparing decoders: the settings a decoder is asked for are kept as plain
//! values beside rodio's builder, which receives the same settings.

use vstd::prelude::*;
use rodio::decoder::DecoderBuilder as RodioBuilder;
use crate::codec::{
    rodio_builder, rodio_with_byte_len, rodio_with_coarse_seek, rodio_with_data,
    rodio_with_gapless, rodio_with_hint, rodio_with_mime_type, rodio_with_seekable,
};

verus! {

/// The settings a decoder is built with.
#[derive(Clone, Debug, PartialEq, Eq)]
pub struct DecoderSettings {
    /// The stream's length in bytes, which lets formats without frame counts
    /// compute their duration.
    pub byte_len: Option<u64>,
    /// Coarse seeking instead of sample-accurate seeking.
    pub coarse_seek: bool,
    /// Trim padding frames for gapless playback.
    pub gapless: bool,
    /// A file-extension hint.
    pub hint: Option<String>,
    /// A MIME-type hint.
    pub mime_type: Option<String>,
    /// Whether the data allows random access.
    pub is_seekable: bool,
}

/// The settings of a fresh builder: no length, accurate seeks, gapless, no
/// hints, not seekable.
pub open spec fn default_settings(s: DecoderSettings) -> bool {
    &&& s.byte_len.is_none()
    &&& !s.coarse_seek
    &&& s.gapless
    &&& s.hint.is_none()
    &&& s.mime_type.is_none()
    &&& !s.is_seekable
}

/// `s` holds the string whose characters are `text`.
pub open spec fn holds_text(s: Option<String>, text: Seq<char>) -> bool {
    s.is_some() && s.unwrap()@ == text
}

/// Gathers a decoder's data and settings.
#[verifier::reject_recursive_types(R)]
pub struct DecoderBuilder<R> {
    inner: RodioBuilder<R>,
    settings: DecoderSettings,
    has_data: bool,
}

impl<R: std::io::Read + std::io::Seek + Send + Sync + 'static> DecoderBuilder<R> {
    pub closed spec fn settings_spec(&self) -> DecoderSettings {
        self.settings
    }

    pub closed spec fn has_data_spec(&self) -> bool {
        self.has_data
    }

    /// A builder with the default settings and no data.
    pub fn new() -> (r: Self)
        ensures
            default_settings(r.settings_spec()),
            !r.has_data_spec(),
    {
        DecoderBuilder {
            inner: rodio_builder(),
            settings: DecoderSettings {
                byte_len: None,
                coarse_seek: false,
                gapless: true,
                hint: None,
                mime_type: None,
                is_seekable: false,
            },
            has_data: false,
        }
    }

    pub fn settings(&self) -> (r: &DecoderSettings)
        ensures
            *r == self.settings_spec(),
    {
        &self.settings
    }

    pub fn with_data(self, data: R) -> (r: Self)
        ensures
            r.settings_spec() == self.settings_spec(),
            r.has_data_spec(),
    {
        DecoderBuilder {
            inner: rodio_with_data(self.inner, data),
            settings: self.settings,
            has_data: true,
        }
    }

    pub fn with_hint(self, hint: &str) -> (r: Self)
        ensures
            r.settings_spec() == (DecoderSettings {
                hint: r.settings_spec().hint,
                ..self.settings_spec()
            }),
            holds_text(r.settings_spec().hint, hint@),
            r.has_data_spec() == self.has_data_spec(),
    {
        let mut settings = self.settings;
        settings.hint = Some(hint.to_string());
        DecoderBuilder {
            inner: rodio_with_hint(self.inner, hint),
            settings,
            has_data: self.has_data,
        }
    }

    pub fn with_mime_type(self, mime_type: &str) -> (r: Self)
        ensures
            r.settings_spec() == (DecoderSettings {
                mime_type: r.settings_spec().mime_type,
                ..self.settings_spec()
            }),
            holds_text(r.settings_spec().mime_type, mime_type@),
            r.has_data_spec() == self.has_data_spec(),
    {
        let mut settings = self.settings;
        settings.mime_type = Some(mime_type.to_string());
        DecoderBuilder {
            inner: rodio_with_mime_type(self.inner, mime_type),
            settings,
            has_data: self.has_data,
        }
    }

    /// Sets the stream's length, which also marks it seekable.
    pub fn with_byte_len(self, byte_len: u64) -> (r: Self)
        ensures
            r.settings_spec() == (DecoderSettings {
                byte_len: Some(byte_len),
                is_seekable: true,
                ..self.settings_spec()
            }),
            r.has_data_spec() == self.has_data_spec(),
    {
        let mut settings = self.settings;
        settings.byte_len = Some(byte_len);
        settings.is_seekable = true;
        DecoderBuilder {
            inner: rodio_with_byte_len(self.inner, byte_len),
            settings,
            has_data: self.has_data,
        }
    }

    pub fn with_seekable(self, is_seekable: bool) -> (r: Self)
        ensures
            r.settings_spec() == (DecoderSettings { is_seekable, ..self.settings_spec() }),
            r.has_data_spec() == self.has_data_spec(),
    {
        let mut settings = self.settings;
        settings.is_seekable = is_seekable;
        DecoderBuilder {
            inner: rodio_with_seekable(self.inner, is_seekable),
            settings,
            has_data: self.has_data,
        }
    }

    pub fn with_gapless(self, gapless: bool) -> (r: Self)
        ensures
            r.settings_spec() == (DecoderSettings { gapless, ..self.settings_spec() }),
            r.has_data_spec() == self.has_data_spec(),
    {
        let mut settings = self.settings;
        settings.gapless = gapless;
        DecoderBuilder {
            inner: rodio_with_gapless(self.inner, gapless),
            settings,
            has_data: self.has_data,
        }
    }

    pub fn with_coarse_seek(self, coarse_seek: bool) -> (r: Self)
        ensures
            r.settings_spec() == (DecoderSettings { coarse_seek, ..self.settings_spec() }),
            r.has_data_spec() == self.has_data_spec(),
    {
        let mut settings = self.settings;
        settings.coarse_seek = coarse_seek;
        DecoderBuilder {
            inner: rodio_with_coarse_seek(self.inner, coarse_seek),
            settings,
            has_data: self.has_data,
        }
    }

    /// rodio's builder, configured with these settings, to build from.
    pub fn into_inner(self) -> RodioBuilder<R> {
        self.inner
    }
}

/// The data of a decoder with the settings it is to be decoded with.
#[verifier::reject_recursive_types(R)]
pub struct Decoder<R> {
    builder: DecoderBuilder<R>,
}

/// The data of a decoder that starts over when its data ends, with its
/// settings.
#[verifier::reject_recursive_types(R)]
pub struct LoopedDecoder<R> {
    builder: DecoderBuilder<R>,
}

impl<R: std::io::Read + std::io::Seek + Send + Sync + 'static> LoopedDecoder<R> {
    pub closed spec fn settings_spec(&self) -> DecoderSettings {
        self.builder.settings_spec()
    }

    pub closed spec fn has_data_spec(&self) -> bool {
        self.builder.has_data_spec()
    }

    pub fn settings(&self) -> (r: &DecoderSettings)
        ensures
            *r == self.settings_spec(),
    {
        self.builder.settings()
    }

    /// The configured builder; it is built with `build_looped`.
    pub fn into_builder(self) -> (r: DecoderBuilder<R>)
        ensures
            r.settings_spec() == self.settings_spec(),
            r.has_data_spec() == self.has_data_spec(),
    {
        self.builder
    }
}

impl<R: std::io::Read + std::io::Seek + Send + Sync + 'static> Decoder<R> {
    pub closed spec fn settings_spec(&self) -> DecoderSettings {
        self.builder.settings_spec()
    }

    pub closed spec fn has_data_spec(&self) -> bool {
        self.builder.has_data_spec()
    }

    pub fn settings(&self) -> (r: &DecoderSettings)
        ensures
            *r == self.settings_spec(),
    {
        self.builder.settings()
    }

    /// The configured builder; it is built with `build`.
    pub fn into_builder(self) -> (r: DecoderBuilder<R>)
        ensures
            r.settings_spec() == self.settings_spec(),
            r.has_data_spec() == self.has_data_spec(),
    {
        self.builder
    }

    /// A builder with the default settings.
    pub fn builder() -> (r: DecoderBuilder<R>)
        ensures
            default_settings(r.settings_spec()),
            !r.has_data_spec(),
    {
        DecoderBuilder::new()
    }

    /// `data` with the default settings: the format is detected.
    pub fn new(data: R) -> (r: Self)
        ensures
            default_settings(r.settings_spec()),
            r.has_data_spec(),
    {
        Decoder { builder: DecoderBuilder::new().with_data(data) }
    }

    /// `data` with the default settings, to be played over and over.
    pub fn new_looped(data: R) -> (r: LoopedDecoder<R>)
        ensures
            default_settings(r.settings_spec()),
            r.has_data_spec(),
    {
        LoopedDecoder { builder: DecoderBuilder::new().with_data(data) }
    }

    /// `data` of known length `byte_len`, which makes it seekable and lets
    /// formats without frame counts compute their duration.
    pub fn new_with_len(data: R, byte_len: u64) -> (r: Self)
        ensures
            r.has_data_spec(),
            ({
                let s = r.settings_spec();
                &&& !s.coarse_seek
                &&& s.gapless
                &&& s.hint.is_none()
                &&& s.mime_type.is_none()
                &&& s.byte_len == Some(byte_len)
                &&& s.is_seekable
            }),
    {
        Decoder {
            builder: DecoderBuilder::new().with_data(data).with_byte_len(byte_len).with_seekable(
                true,
            ),
        }
    }

    fn new_with_hint(data: R, hint: &str) -> (r: Self)
        ensures
            hinted(r.settings_spec(), hint@),
            r.has_data_spec(),
    {
        Decoder { builder: DecoderBuilder::new().with_data(data).with_hint(hint) }
    }

    /// `data` that is probably WAV.
    pub fn new_wav(data: R) -> (r: Self)
        ensures
            hinted(r.settings_spec(), "wav"@),
            r.has_data_spec(),
    {
        Self::new_with_hint(data, "wav")
    }

    /// `data` that is probably FLAC.
    pub fn new_flac(data: R) -> (r: Self)
        ensures
            hinted(r.settings_spec(), "flac"@),
            r.has_data_spec(),
    {
        Self::new_with_hint(data, "flac")
    }

    /// `data` that is probably Ogg Vorbis.
    pub fn new_vorbis(data: R) -> (r: Self)
        ensures
            hinted(r.settings_spec(), "ogg"@),
            r.has_data_spec(),
    {
        Self::new_with_hint(data, "ogg")
    }

    /// `data` that is probably MP3.
    pub fn new_mp3(data: R) -> (r: Self)
        ensures
            hinted(r.settings_spec(), "mp3"@),
            r.has_data_spec(),
    {
        Self::new_with_hint(data, "mp3")
    }

    /// `data` that is probably AAC.
    pub fn new_aac(data: R) -> (r: Self)
        ensures
            hinted(r.settings_spec(), "aac"@),
            r.has_data_spec(),
    {
        Self::new_with_hint(data, "aac")
    }

    /// `data` that is probably in an MP4 container.
    pub fn new_mp4(data: R) -> (r: Self)
        ensures
            r.has_data_spec(),
            ({
                let s = r.settings_spec();
                &&& s.byte_len.is_none()
                &&& !s.coarse_seek
                &&& s.gapless
                &&& s.hint.is_none()
                &&& holds_text(s.mime_type, "audio/mp4"@)
                &&& !s.is_seekable
            }),
    {
        Decoder { builder: DecoderBuilder::new().with_data(data).with_mime_type("audio/mp4") }
    }
}

/// The default settings but for the extension hint `hint`.
pub open spec fn hinted(s: DecoderSettings, hint: Seq<char>) -> bool {
    &&& s.byte_len.is_none()
    &&& !s.coarse_seek
    &&& s.gapless
    &&& holds_text(s.hint, hint)
    &&& s.mime_type.is_none()
    &&& !s.is_seekable
}

} // verus!
