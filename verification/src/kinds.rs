//! The closed sets of values that the detected fields range over, each with
//! a stable textual identifier.

use vstd::prelude::*;

verus! {

/// The codec of the video stream.
#[derive(Clone, Copy, Debug, PartialEq, Eq, Structural)]
pub enum VideoCodecKind {
    Divx,
    Xvid,
    Vp9,
    H265,
    H264,
}

/// The vertical resolution of the picture.
#[derive(Clone, Copy, Debug, PartialEq, Eq, Structural)]
pub enum VideoResolutionKind {
    R360P,
    R480P,
    R540P,
    R576P,
    R720P,
    R1080P,
    R2160P,
}

/// Where the video was taken from.
#[derive(Clone, Copy, Debug, PartialEq, Eq, Structural)]
pub enum VideoSourceKind {
    Workprint,
    Cam,
    Telesync,
    Telecine,
    R5,
    HDRip,
    PPVRip,
    Preair,
    TVRip,
    DSR,
    SDTV,
    DVDscr,
    BDscr,
    Webrip,
    HDTV,
    Webdl,
    DVDrip,
    Remux,
    BluRay,
}

/// The bit depth or dynamic range of the picture.
#[derive(Clone, Copy, Debug, PartialEq, Eq, Structural)]
pub enum VideoColorRangeKind {
    C8Bit,
    C10Bit,
    HDRplus,
    HDR,
    DolbyVision,
}

/// The codec of the audio stream.
#[derive(Clone, Copy, Debug, PartialEq, Eq, Structural)]
pub enum AudioCodecKind {
    MP3,
    AAC,
    DD51,
    AC3,
    DDPLUS51,
    FLAC,
    DTSHD,
    DTS,
    TRUEHD,
}

impl VideoCodecKind {
    /// The identifier of the case.
    pub open spec fn label(self) -> Seq<char> {
        match self {
            VideoCodecKind::Divx => "Divx"@,
            VideoCodecKind::Xvid => "Xvid"@,
            VideoCodecKind::Vp9 => "Vp9"@,
            VideoCodecKind::H265 => "h265"@,
            VideoCodecKind::H264 => "h264"@,
        }
    }

    /// Returns the identifier of the case.
    pub fn name(&self) -> (r: &'static str)
        ensures
            r@ == self.label(),
    {
        match self {
            VideoCodecKind::Divx => "Divx",
            VideoCodecKind::Xvid => "Xvid",
            VideoCodecKind::Vp9 => "Vp9",
            VideoCodecKind::H265 => "h265",
            VideoCodecKind::H264 => "h264",
        }
    }
}

impl VideoResolutionKind {
    /// The identifier of the case.
    pub open spec fn label(self) -> Seq<char> {
        match self {
            VideoResolutionKind::R360P => "360p"@,
            VideoResolutionKind::R480P => "480p"@,
            VideoResolutionKind::R540P => "540p"@,
            VideoResolutionKind::R576P => "576P"@,
            VideoResolutionKind::R720P => "720P"@,
            VideoResolutionKind::R1080P => "1080p"@,
            VideoResolutionKind::R2160P => "2160p"@,
        }
    }

    /// Returns the identifier of the case.
    pub fn name(&self) -> (r: &'static str)
        ensures
            r@ == self.label(),
    {
        match self {
            VideoResolutionKind::R360P => "360p",
            VideoResolutionKind::R480P => "480p",
            VideoResolutionKind::R540P => "540p",
            VideoResolutionKind::R576P => "576P",
            VideoResolutionKind::R720P => "720P",
            VideoResolutionKind::R1080P => "1080p",
            VideoResolutionKind::R2160P => "2160p",
        }
    }
}

impl VideoSourceKind {
    /// The identifier of the case.
    pub open spec fn label(self) -> Seq<char> {
        match self {
            VideoSourceKind::Workprint => "Workprint"@,
            VideoSourceKind::Cam => "Cam"@,
            VideoSourceKind::Telesync => "Telesync"@,
            VideoSourceKind::Telecine => "Telecine"@,
            VideoSourceKind::R5 => "R5"@,
            VideoSourceKind::HDRip => "HDRip"@,
            VideoSourceKind::PPVRip => "PPVRip"@,
            VideoSourceKind::Preair => "Preair"@,
            VideoSourceKind::TVRip => "TVRip"@,
            VideoSourceKind::DSR => "DSR"@,
            VideoSourceKind::SDTV => "SDTV"@,
            VideoSourceKind::DVDscr => "DVDscr"@,
            VideoSourceKind::BDscr => "BDscr"@,
            VideoSourceKind::Webrip => "Webrip"@,
            VideoSourceKind::HDTV => "HDTV"@,
            VideoSourceKind::Webdl => "Webdl"@,
            VideoSourceKind::DVDrip => "DVDrip"@,
            VideoSourceKind::Remux => "Remux"@,
            VideoSourceKind::BluRay => "BluRay"@,
        }
    }

    /// Returns the identifier of the case.
    pub fn name(&self) -> (r: &'static str)
        ensures
            r@ == self.label(),
    {
        match self {
            VideoSourceKind::Workprint => "Workprint",
            VideoSourceKind::Cam => "Cam",
            VideoSourceKind::Telesync => "Telesync",
            VideoSourceKind::Telecine => "Telecine",
            VideoSourceKind::R5 => "R5",
            VideoSourceKind::HDRip => "HDRip",
            VideoSourceKind::PPVRip => "PPVRip",
            VideoSourceKind::Preair => "Preair",
            VideoSourceKind::TVRip => "TVRip",
            VideoSourceKind::DSR => "DSR",
            VideoSourceKind::SDTV => "SDTV",
            VideoSourceKind::DVDscr => "DVDscr",
            VideoSourceKind::BDscr => "BDscr",
            VideoSourceKind::Webrip => "Webrip",
            VideoSourceKind::HDTV => "HDTV",
            VideoSourceKind::Webdl => "Webdl",
            VideoSourceKind::DVDrip => "DVDrip",
            VideoSourceKind::Remux => "Remux",
            VideoSourceKind::BluRay => "BluRay",
        }
    }
}

impl VideoColorRangeKind {
    /// The identifier of the case.
    pub open spec fn label(self) -> Seq<char> {
        match self {
            VideoColorRangeKind::C8Bit => "8Bit"@,
            VideoColorRangeKind::C10Bit => "10Bit"@,
            VideoColorRangeKind::HDRplus => "HDRplus"@,
            VideoColorRangeKind::HDR => "HDR"@,
            VideoColorRangeKind::DolbyVision => "DolbyVision"@,
        }
    }

    /// Returns the identifier of the case.
    pub fn name(&self) -> (r: &'static str)
        ensures
            r@ == self.label(),
    {
        match self {
            VideoColorRangeKind::C8Bit => "8Bit",
            VideoColorRangeKind::C10Bit => "10Bit",
            VideoColorRangeKind::HDRplus => "HDRplus",
            VideoColorRangeKind::HDR => "HDR",
            VideoColorRangeKind::DolbyVision => "DolbyVision",
        }
    }
}

impl AudioCodecKind {
    /// The identifier of the case.
    pub open spec fn label(self) -> Seq<char> {
        match self {
            AudioCodecKind::MP3 => "MP3"@,
            AudioCodecKind::AAC => "AAC"@,
            AudioCodecKind::DD51 => "DD5.1"@,
            AudioCodecKind::AC3 => "AC3"@,
            AudioCodecKind::DDPLUS51 => "DD+5.1"@,
            AudioCodecKind::FLAC => "FLAC"@,
            AudioCodecKind::DTSHD => "DTSHD"@,
            AudioCodecKind::DTS => "DTS"@,
            AudioCodecKind::TRUEHD => "TRUEHD"@,
        }
    }

    /// Returns the identifier of the case.
    pub fn name(&self) -> (r: &'static str)
        ensures
            r@ == self.label(),
    {
        match self {
            AudioCodecKind::MP3 => "MP3",
            AudioCodecKind::AAC => "AAC",
            AudioCodecKind::DD51 => "DD5.1",
            AudioCodecKind::AC3 => "AC3",
            AudioCodecKind::DDPLUS51 => "DD+5.1",
            AudioCodecKind::FLAC => "FLAC",
            AudioCodecKind::DTSHD => "DTSHD",
            AudioCodecKind::DTS => "DTS",
            AudioCodecKind::TRUEHD => "TRUEHD",
        }
    }
}

} // verus!
