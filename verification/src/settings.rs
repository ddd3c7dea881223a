//! What the user can set: paths, video and audio encoding, the part to encode, the application.

use vstd::prelude::*;

use crate::paths;
use crate::paths::FilePath;
use crate::strings;
use crate::time::{Duration, NANOS_PER_SEC};

verus! {

pub const DEFAULT_OPUS_BITRATE_2_0: u32 = 112;

pub const DEFAULT_OPUS_BITRATE_5_1: u32 = 224;

pub const DEFAULT_OPUS_BITRATE_7_1: u32 = 394;

// ---------------------------------------------------------------------------------------------
// Paths
// ---------------------------------------------------------------------------------------------

/// Why paths can not be used.
#[derive(Debug, Clone, Copy, PartialEq, Eq, Structural)]
pub enum PathError {
    InputFileMissing,
    OutputIsDirectory,
    OutputNotWritable,
    NoInputFileName,
    NoOutputDirectory,
}

impl PathError {
    /// The message that is shown to the user.
    pub open spec fn spec_message(self) -> Seq<char> {
        match self {
            PathError::InputFileMissing => "Input file does not exist or is not readable."@,
            PathError::OutputIsDirectory => "Path points to a directory and not a file."@,
            PathError::OutputNotWritable => "Output directory can not be written into."@,
            PathError::NoInputFileName => "Input file path has no filename."@,
            PathError::NoOutputDirectory => "Output file path has no directory (parent)."@,
        }
    }

    /// The message that is shown to the user.
    pub fn message(&self) -> (r: String)
        ensures
            r@ == self.spec_message(),
    {
        match self {
            PathError::InputFileMissing => {
                "Input file does not exist or is not readable.".to_string()
            },
            PathError::OutputIsDirectory => {
                "Path points to a directory and not a file.".to_string()
            },
            PathError::OutputNotWritable => {
                "Output directory can not be written into.".to_string()
            },
            PathError::NoInputFileName => "Input file path has no filename.".to_string(),
            PathError::NoOutputDirectory => {
                "Output file path has no directory (parent).".to_string()
            },
        }
    }
}

#[derive(Debug, PartialEq)]
pub struct PathSettings {
    pub input_file: FilePath,
    pub scan_for_subtitles: bool,
    pub output_file: FilePath,
    pub sync_output_filename: bool,
}

impl Clone for PathSettings {
    fn clone(&self) -> (r: Self)
        ensures
            r == *self,
    {
        PathSettings {
            input_file: self.input_file.clone(),
            scan_for_subtitles: self.scan_for_subtitles,
            output_file: self.output_file.clone(),
            sync_output_filename: self.sync_output_filename,
        }
    }
}

impl PathSettings {
    /// The outcome of the checks before encoding, where the input file was found to be a file or
    /// not, the output path to end in a separator or not, and the output directory to be
    /// writable or not. The first check that fails decides.
    pub open spec fn readiness(
        input_is_file: bool,
        ends_in_separator: bool,
        output_is_writable: bool,
    ) -> Result<(), PathError> {
        if !input_is_file {
            Err(PathError::InputFileMissing)
        } else if ends_in_separator {
            Err(PathError::OutputIsDirectory)
        } else if !output_is_writable {
            Err(PathError::OutputNotWritable)
        } else {
            Ok(())
        }
    }

    /// Whether `r` is an outcome of the checks before encoding. A path that ends in a slash is that
    /// of a directory, and whether one that ends in a backslash is so too depends on the host.
    pub open spec fn is_outcome_of_checks(
        self,
        r: Result<(), PathError>,
        input_is_file: bool,
        output_is_writable: bool,
    ) -> bool {
        if self.output_ends_in_slash() {
            r == Self::readiness(input_is_file, true, output_is_writable)
        } else if self.output_may_end_in_separator() {
            r == Self::readiness(input_is_file, true, output_is_writable) || r == Self::readiness(
                input_is_file,
                false,
                output_is_writable,
            )
        } else {
            r == Self::readiness(input_is_file, false, output_is_writable)
        }
    }

    /// Checks both paths, given whether the input path is that of a file, and whether the output
    /// directory can be written into.
    pub fn assert_that_is_ready_for_encoding(
        &self,
        input_is_file: bool,
        output_is_writable: bool,
    ) -> (r: Result<(), PathError>)
        ensures
            self.is_outcome_of_checks(r, input_is_file, output_is_writable),
    {
        self.assert_that_input_file_is_ready_for_encoding(input_is_file)?;
        self.assert_that_output_file_is_ready_for_encoding(output_is_writable)?;
        Ok(())
    }

    /// Checks the input path, given whether it is that of a file.
    pub fn assert_that_input_file_is_ready_for_encoding(&self, input_is_file: bool) -> (r: Result<
        (),
        PathError,
    >)
        ensures
            r == (if input_is_file {
                Ok::<(), PathError>(())
            } else {
                Err(PathError::InputFileMissing)
            }),
    {
        if !input_is_file {
            return Err(PathError::InputFileMissing);
        }
        Ok(())
    }

    /// Checks the output path, given whether its directory can be written into.
    pub fn assert_that_output_file_is_ready_for_encoding(
        &self,
        output_is_writable: bool,
    ) -> (r: Result<(), PathError>)
        ensures
            self.is_outcome_of_checks(r, true, output_is_writable),
    {
        Self::check_output(self.output_ends_in_separator(), output_is_writable)
    }

    /// Checks an output path, given whether the host finds a separator at its end and whether
    /// its directory can be written into.
    pub fn check_output(ends_in_separator: bool, output_is_writable: bool) -> (r: Result<
        (),
        PathError,
    >)
        ensures
            r == Self::readiness(true, ends_in_separator, output_is_writable),
    {
        if ends_in_separator {
            return Err(PathError::OutputIsDirectory);
        }
        if !output_is_writable {
            return Err(PathError::OutputNotWritable);
        }
        Ok(())
    }

    /// Whether the output path ends in a slash, which every host takes for a separator.
    pub open spec fn output_ends_in_slash(self) -> bool {
        self.output_file.text@.len() > 0 && self.output_file.text@.last() == '/'
    }

    /// Whether the output path ends in a character that some host takes for a separator.
    pub open spec fn output_may_end_in_separator(self) -> bool {
        self.output_file.text@.len() > 0 && (self.output_file.text@.last() == '/'
            || self.output_file.text@.last() == '\\')
    }

    /// Whether the host finds a separator at the end of the output path.
    pub fn output_ends_in_separator(&self) -> (b: bool)
        ensures
            b ==> self.output_may_end_in_separator(),
            self.output_ends_in_slash() ==> b,
    {
        let chars = strings::chars_of(self.output_file.text.as_str());
        chars.len() > 0 && paths::host_separator(chars[chars.len() - 1])
    }

    /// Checks that the output path is not that of a directory. Whether a path that ends in a
    /// backslash is one depends on the host.
    pub fn assert_output_file_path_does_not_end_with_a_path_separator(&self) -> (r: Result<
        (),
        PathError,
    >)
        ensures
            r matches Err(e) ==> e == PathError::OutputIsDirectory
                && self.output_may_end_in_separator(),
            self.output_ends_in_slash() ==> r is Err,
    {
        Self::check_output(self.output_ends_in_separator(), true)
    }

    /// The file to create, and to remove again, in order to find out whether the output
    /// directory can be written into. There is none where the output path has no directory.
    pub fn write_test_file(&self) -> (r: Option<FilePath>)
        ensures
            r is Some <==> self.output_file.parent is Some,
            r matches Some(f) ==> {
                let directory = self.output_file.parent->0@;
                let name = ".ravioni-write-test-22604.tmp"@;
                &&& f.is_in_directory(directory, name)
                &&& !paths::has_double_start(directory) ==> paths::is_directory_and_name(
                    f.text@,
                    directory,
                    name,
                )
            },
    {
        match &self.output_file.parent {
            None => None,
            Some(parent) => {
                proof {
                    reveal_strlit(".ravioni-write-test-22604.tmp");
                }
                Some(FilePath::in_directory(parent.as_str(), ".ravioni-write-test-22604.tmp"))
            },
        }
    }

    /// The output path with the file name of the input path in place of its own, which leaves
    /// the output directory as it is.
    pub fn output_file_path_with_inputs_filename(&self) -> (r: Result<FilePath, PathError>)
        ensures
            self.input_file.file_name is None ==> r == Err::<FilePath, PathError>(
                PathError::NoInputFileName,
            ),
            self.input_file.file_name is Some && self.output_file.parent is None ==> r == Err::<
                FilePath,
                PathError,
            >(PathError::NoOutputDirectory),
            self.input_file.file_name is Some && self.output_file.parent is Some ==> r is Ok,
            r matches Ok(p) ==> p.is_in_directory(
                self.output_file.parent->0@,
                self.input_file.file_name->0@,
            ),
    {
        match &self.input_file.file_name {
            None => Err(PathError::NoInputFileName),
            Some(name) => match &self.output_file.parent {
                None => Err(PathError::NoOutputDirectory),
                Some(parent) => Ok(FilePath::in_directory(parent.as_str(), name.as_str())),
            },
        }
    }

    /// The output path with the file name of the input path keeps its directory, and to give it
    /// that name again changes nothing. This holds where the host joins the two by a slash, and
    /// where every host gives the directory back.
    pub proof fn syncing_again_changes_nothing(self, synced: FilePath, again: FilePath)
        requires
            self.input_file.file_name is Some,
            self.output_file.parent is Some,
            paths::is_plain_name(self.input_file.file_name->0@),
            paths::is_bare_directory(self.output_file.parent->0@),
            !paths::has_double_start(self.output_file.parent->0@),
            synced.is_in_directory(self.output_file.parent->0@, self.input_file.file_name->0@),
            paths::is_joined_by_slash(
                synced.text@,
                self.output_file.parent->0@,
                self.input_file.file_name->0@,
            ),
            again.is_in_directory(synced.parent->0@, self.input_file.file_name->0@),
            paths::is_joined_by_slash(
                again.text@,
                synced.parent->0@,
                self.input_file.file_name->0@,
            ),
        ensures
            paths::optional_text(synced.file_name) == Some(self.input_file.file_name->0@),
            paths::optional_text(synced.parent) == Some(self.output_file.parent->0@),
            again.text@ == synced.text@,
            paths::optional_text(again.file_name) == paths::optional_text(synced.file_name),
            paths::optional_text(again.parent) == paths::optional_text(synced.parent),
    {
        let directory = self.output_file.parent->0@;
        let name = self.input_file.file_name->0@;
        paths::joined_paths_start_simply(synced.text@, directory, name);
    }
}

impl PathSettings {
    /// Whether these are the settings that the application starts with.
    pub open spec fn is_default(self) -> bool {
        &&& self.input_file.text@.len() == 0
        &&& self.input_file.parent is None
        &&& self.input_file.file_name is None
        &&& self.scan_for_subtitles
        &&& self.output_file.text@.len() == 0
        &&& self.output_file.parent is None
        &&& self.output_file.file_name is None
        &&& self.sync_output_filename
    }
}

impl Default for PathSettings {
    fn default() -> (r: Self)
        ensures
            r.is_default(),
    {
        PathSettings {
            input_file: FilePath::empty(),
            scan_for_subtitles: true,
            output_file: FilePath::empty(),
            sync_output_filename: true,
        }
    }
}

// ---------------------------------------------------------------------------------------------
// Video
// ---------------------------------------------------------------------------------------------

/// The constant rate factor of the AV1 encoder.
#[derive(Debug, Clone, Copy, PartialEq, Eq, Structural)]
pub struct Av1Crf(u32);

impl View for Av1Crf {
    type V = u32;

    closed spec fn view(&self) -> u32 {
        self.0
    }
}

impl Av1Crf {
    pub const MIN: u32 = 0;

    pub const MAX: u32 = 63;

    /// Whether the value lies within the bounds.
    pub open spec fn is_in_range(self) -> bool {
        Self::MIN <= self@ <= Self::MAX
    }

    /// The rate factor `value`, if it lies within the bounds.
    pub fn new(value: u32) -> (r: Result<Self, String>)
        ensures
            r is Ok <==> Self::MIN <= value <= Self::MAX,
            r matches Ok(v) ==> v@ == value && v.is_in_range(),
            r matches Err(m) ==> m@ == "AV1 crf must be between 0 and 63."@,
    {
        if Self::MIN <= value && value <= Self::MAX {
            Ok(Self(value))
        } else {
            Err("AV1 crf must be between 0 and 63.".to_string())
        }
    }

    /// The rate factor that stands in a settings file, whose values are taken as they are.
    pub fn from_stored(value: u32) -> (r: Self)
        ensures
            r@ == value,
    {
        Self(value)
    }

    pub fn value(&self) -> (r: u32)
        ensures
            r == self@,
    {
        self.0
    }
}

/// The preset of the AV1 encoder, which trades speed for size.
#[derive(Debug, Clone, Copy, PartialEq, Eq, Structural)]
pub struct Av1Preset(u32);

impl View for Av1Preset {
    type V = u32;

    closed spec fn view(&self) -> u32 {
        self.0
    }
}

impl Av1Preset {
    pub const MIN: u32 = 0;

    pub const MAX: u32 = 8;

    /// Whether the value lies within the bounds.
    pub open spec fn is_in_range(self) -> bool {
        Self::MIN <= self@ <= Self::MAX
    }

    /// The preset `value`, if it lies within the bounds.
    pub fn new(value: u32) -> (r: Result<Self, String>)
        ensures
            r is Ok <==> Self::MIN <= value <= Self::MAX,
            r matches Ok(v) ==> v@ == value && v.is_in_range(),
            r matches Err(m) ==> m@ == "AV1 preset must be between 0 and 8."@,
    {
        if Self::MIN <= value && value <= Self::MAX {
            Ok(Self(value))
        } else {
            Err("AV1 preset must be between 0 and 8.".to_string())
        }
    }

    /// The preset that stands in a settings file, whose values are taken as they are.
    pub fn from_stored(value: u32) -> (r: Self)
        ensures
            r@ == value,
    {
        Self(value)
    }

    pub fn value(&self) -> (r: u32)
        ensures
            r == self@,
    {
        self.0
    }
}

#[derive(Debug, Clone, Copy, PartialEq)]
pub struct VideoSettings {
    pub crf: Av1Crf,
    pub preset: Av1Preset,
    pub crop: bool,
    pub crop_width: Option<u32>,
    pub crop_height: Option<u32>,
    pub crop_x_offset: Option<u32>,
    pub crop_y_offset: Option<u32>,
    pub scale: bool,
    pub scale_width: Option<u32>,
    pub scale_height: Option<u32>,
    pub grain: u32,
    pub denoise: bool,
}

/// A number in decimal notation, or `otherwise` where there is none.
pub open spec fn number_or(number: Option<u32>, otherwise: Seq<char>) -> Seq<char> {
    match number {
        Some(n) => strings::decimal(n as nat),
        None => otherwise,
    }
}

/// A number in decimal notation, or `otherwise` where there is none.
pub fn number_or_text(number: Option<u32>, otherwise: &str) -> (r: String)
    ensures
        r@ == number_or(number, otherwise@),
{
    match number {
        Some(n) => strings::decimal_string(n as u64),
        None => otherwise.to_string(),
    }
}

impl VideoSettings {
    /// The filter that cuts the picture to the chosen size and place.
    pub open spec fn crop_filter(self) -> Seq<char> {
        "crop="@ + number_or(self.crop_width, "iw"@) + ":"@ + number_or(self.crop_height, "ih"@)
            + ":"@ + number_or(self.crop_x_offset, ""@) + ":"@ + number_or(self.crop_y_offset, ""@)
    }

    /// The filter that brings the picture to the chosen size.
    pub open spec fn scale_filter(self) -> Seq<char> {
        "scale="@ + number_or(self.scale_width, "iw"@) + ":"@ + number_or(self.scale_height, "ih"@)
            + ":flags=bicubic:param0=0:param1=1/2"@
    }

    /// The filters that are switched on: the cut comes before the scaling.
    pub open spec fn filters(self) -> Seq<Seq<char>> {
        (if self.crop {
            seq![self.crop_filter()]
        } else {
            Seq::empty()
        }) + (if self.scale {
            seq![self.scale_filter()]
        } else {
            Seq::empty()
        })
    }

    /// The arguments that switch the filters on: none at all where there is no filter.
    pub open spec fn spec_filter_args(self) -> Seq<Seq<char>> {
        if self.filters().len() == 0 {
            Seq::empty()
        } else {
            seq!["-vf"@, strings::join(self.filters(), ","@)]
        }
    }

    /// The parameters of the AV1 encoder.
    pub open spec fn spec_av1_args(self) -> Seq<Seq<char>> {
        seq![
            "-svtav1-params"@,
            "tune=0:sharpness=1:input-depth=10:enable-qm=1:qm-min=0:keyint=300:aq-mode=2:sharpness=1:irefresh-type=2:film-grain="@
                + strings::decimal(self.grain as nat) + ":film-grain-denoise="@
                + strings::decimal(if self.denoise { 1 } else { 0 }),
        ]
    }

    fn crop_filter_text(&self) -> (r: String)
        ensures
            r@ == self.crop_filter(),
    {
        let mut r = "crop=".to_string();
        r.append(number_or_text(self.crop_width, "iw").as_str());
        r.append(":");
        r.append(number_or_text(self.crop_height, "ih").as_str());
        r.append(":");
        r.append(number_or_text(self.crop_x_offset, "").as_str());
        r.append(":");
        r.append(number_or_text(self.crop_y_offset, "").as_str());
        r
    }

    fn scale_filter_text(&self) -> (r: String)
        ensures
            r@ == self.scale_filter(),
    {
        let mut r = "scale=".to_string();
        r.append(number_or_text(self.scale_width, "iw").as_str());
        r.append(":");
        r.append(number_or_text(self.scale_height, "ih").as_str());
        r.append(":flags=bicubic:param0=0:param1=1/2");
        r
    }

    /// The arguments for the video filters.
    pub fn filter_args(&self) -> (r: Vec<String>)
        ensures
            strings::texts(r@) == self.spec_filter_args(),
    {
        broadcast use strings::group_texts;

        let mut filters: Vec<String> = Vec::new();
        if self.crop {
            filters.push(self.crop_filter_text());
        }
        if self.scale {
            filters.push(self.scale_filter_text());
        }
        assert(strings::texts(filters@) =~= self.filters());
        let mut args: Vec<String> = Vec::new();
        if filters.len() > 0 {
            args.push("-vf".to_string());
            args.push(strings::join_texts(&filters, 0, filters.len(), ","));
            assert(self.filters().subrange(0, filters@.len() as int) =~= self.filters());
        }
        assert(strings::texts(args@) =~= self.spec_filter_args());
        args
    }

    /// The arguments for the parameters of the AV1 encoder.
    pub fn av1_args(&self) -> (r: Vec<String>)
        ensures
            strings::texts(r@) == self.spec_av1_args(),
    {
        broadcast use strings::group_texts;

        let mut parameters =
            "tune=0:sharpness=1:input-depth=10:enable-qm=1:qm-min=0:keyint=300:aq-mode=2:sharpness=1:irefresh-type=2:film-grain=".to_string();
        parameters.append(strings::decimal_string(self.grain as u64).as_str());
        parameters.append(":film-grain-denoise=");
        parameters.append(
            strings::decimal_string(
                if self.denoise {
                    1
                } else {
                    0
                },
            ).as_str(),
        );
        let mut args: Vec<String> = Vec::new();
        args.push("-svtav1-params".to_string());
        args.push(parameters);
        assert(strings::texts(args@) =~= self.spec_av1_args());
        args
    }
}

impl VideoSettings {
    /// Whether these are the settings that the application starts with.
    pub open spec fn is_default(self) -> bool {
        &&& self.crf@ == 22
        &&& self.preset@ == 4
        &&& !self.crop
        &&& self.crop_width is None
        &&& self.crop_height is None
        &&& self.crop_x_offset is None
        &&& self.crop_y_offset is None
        &&& !self.scale
        &&& self.scale_width is None
        &&& self.scale_height is None
        &&& self.grain == 0
        &&& self.denoise
    }
}

impl Default for VideoSettings {
    fn default() -> (r: Self)
        ensures
            r.is_default(),
    {
        VideoSettings {
            crf: Av1Crf(22),
            preset: Av1Preset(4),
            crop: false,
            crop_width: None,
            crop_height: None,
            crop_x_offset: None,
            crop_y_offset: None,
            scale: false,
            scale_width: None,
            scale_height: None,
            grain: 0,
            denoise: true,
        }
    }
}

// ---------------------------------------------------------------------------------------------
// Audio
// ---------------------------------------------------------------------------------------------

#[derive(Debug, Clone, Copy, PartialEq, Eq, Structural)]
pub enum AudioChannelLayout {
    Mono,
    Stereo20,
    Surround51,
    Surround51Side,
    Surround71,
}

impl AudioChannelLayout {
    /// The name of the layout.
    pub open spec fn spec_name(self) -> Seq<char> {
        match self {
            AudioChannelLayout::Mono => "Mono"@,
            AudioChannelLayout::Stereo20 => "Stereo20"@,
            AudioChannelLayout::Surround51 => "Surround51"@,
            AudioChannelLayout::Surround51Side => "Surround51Side"@,
            AudioChannelLayout::Surround71 => "Surround71"@,
        }
    }

    /// The name of the layout.
    pub fn to_text(&self) -> (r: String)
        ensures
            r@ == self.spec_name(),
    {
        match self {
            AudioChannelLayout::Mono => "Mono".to_string(),
            AudioChannelLayout::Stereo20 => "Stereo20".to_string(),
            AudioChannelLayout::Surround51 => "Surround51".to_string(),
            AudioChannelLayout::Surround51Side => "Surround51Side".to_string(),
            AudioChannelLayout::Surround71 => "Surround71".to_string(),
        }
    }
}

/// A bitrate of the Opus encoder, in kilobits per second.
#[derive(Debug, Clone, Copy, PartialEq, Eq, Structural)]
pub struct OpusBitrate(u32);

impl View for OpusBitrate {
    type V = u32;

    closed spec fn view(&self) -> u32 {
        self.0
    }
}

impl OpusBitrate {
    pub const MIN: u32 = 6;

    pub const MAX: u32 = 510;

    /// Whether the value lies within the bounds.
    pub open spec fn is_in_range(self) -> bool {
        Self::MIN <= self@ <= Self::MAX
    }

    /// The bitrate `value`, if it lies within the bounds.
    pub fn new(value: u32) -> (r: Result<Self, String>)
        ensures
            r is Ok <==> Self::MIN <= value <= Self::MAX,
            r matches Ok(v) ==> v@ == value && v.is_in_range(),
            r matches Err(m) ==> m@ == "Opus bitrate must be between 6 and 510."@,
    {
        if Self::MIN <= value && value <= Self::MAX {
            Ok(Self(value))
        } else {
            Err("Opus bitrate must be between 6 and 510.".to_string())
        }
    }

    /// The bitrate that stands in a settings file, whose values are taken as they are.
    pub fn from_stored(value: u32) -> (r: Self)
        ensures
            r@ == value,
    {
        Self(value)
    }

    pub fn value(&self) -> (r: u32)
        ensures
            r == self@,
    {
        self.0
    }

    /// The value of a bitrate divided by `right`, brought within the bounds.
    pub open spec fn divided(value: u32, right: u32) -> int {
        let quotient = value as int / right as int;
        if quotient < Self::MIN {
            Self::MIN as int
        } else if quotient > Self::MAX {
            Self::MAX as int
        } else {
            quotient
        }
    }
}

impl core::ops::Div<u32> for OpusBitrate {
    type Output = OpusBitrate;

    /// Divides a bitrate, and brings the result within the bounds: a bitrate that is a little
    /// off is better than none.
    fn div(self, right: u32) -> (r: OpusBitrate)
        ensures
            r@ == Self::divided(self@, right),
            r.is_in_range(),
    {
        let quotient: u32 = self.0 / right;
        if quotient < Self::MIN {
            OpusBitrate(Self::MIN)
        } else if quotient > Self::MAX {
            OpusBitrate(Self::MAX)
        } else {
            OpusBitrate(quotient)
        }
    }
}

impl vstd::std_specs::ops::DivSpecImpl<u32> for OpusBitrate {
    open spec fn obeys_div_spec() -> bool {
        true
    }

    open spec fn div_req(self, right: u32) -> bool {
        right != 0
    }

    closed spec fn div_spec(self, right: u32) -> OpusBitrate {
        OpusBitrate(Self::divided(self.0, right) as u32)
    }
}

#[derive(Debug, Clone, Copy, PartialEq)]
pub struct AudioSettings {
    pub bitrate_2_0: OpusBitrate,
    pub bitrate_5_1: OpusBitrate,
    pub bitrate_7_1: OpusBitrate,
    pub downmix_5_1_to_stereo: bool,
    pub downmix_7_1_to_stereo: bool,
    pub volume_adjustment: u32,
    pub re_encode_good_audio_codecs: bool,
    pub copy: bool,
}

impl AudioSettings {
    /// The bitrate for a layout: half of the stereo bitrate for mono, and the stereo bitrate for
    /// a surround layout that is to be mixed down.
    pub open spec fn spec_bitrate(self, layout: AudioChannelLayout) -> int {
        match layout {
            AudioChannelLayout::Mono => OpusBitrate::divided(self.bitrate_2_0@, 2),
            AudioChannelLayout::Stereo20 => self.bitrate_2_0@ as int,
            AudioChannelLayout::Surround51 | AudioChannelLayout::Surround51Side => {
                if self.downmix_5_1_to_stereo {
                    self.bitrate_2_0@ as int
                } else {
                    self.bitrate_5_1@ as int
                }
            },
            AudioChannelLayout::Surround71 => if self.downmix_7_1_to_stereo {
                self.bitrate_2_0@ as int
            } else {
                self.bitrate_7_1@ as int
            },
        }
    }

    /// The bitrate for a layout.
    pub fn bitrate_for_layout(&self, channel_layout: &AudioChannelLayout) -> (r: OpusBitrate)
        ensures
            r@ == self.spec_bitrate(*channel_layout),
    {
        match channel_layout {
            AudioChannelLayout::Mono => self.bitrate_2_0 / 2,
            AudioChannelLayout::Stereo20 => self.bitrate_2_0,
            AudioChannelLayout::Surround51 | AudioChannelLayout::Surround51Side => {
                if self.downmix_5_1_to_stereo {
                    self.bitrate_2_0
                } else {
                    self.bitrate_5_1
                }
            },
            AudioChannelLayout::Surround71 => {
                if self.downmix_7_1_to_stereo {
                    self.bitrate_2_0
                } else {
                    self.bitrate_7_1
                }
            },
        }
    }

    /// Whether `codec` is good enough to be kept.
    pub open spec fn is_good_codec(codec: Seq<char>) -> bool {
        codec == "opus"@ || codec == "vorbis"@ || codec == "mp3"@
    }

    /// Whether a stream in `codec` is to be encoded again.
    pub fn should_re_encode(&self, codec: &str) -> (b: bool)
        ensures
            b == (self.re_encode_good_audio_codecs || !Self::is_good_codec(codec@)),
    {
        self.re_encode_good_audio_codecs || !(strings::same_text(codec, "opus")
            || strings::same_text(codec, "vorbis") || strings::same_text(codec, "mp3"))
    }

    /// Whether all three bitrates lie within the bounds.
    pub open spec fn is_in_range(self) -> bool {
        self.bitrate_2_0.is_in_range() && self.bitrate_5_1.is_in_range()
            && self.bitrate_7_1.is_in_range()
    }

    /// Where the bitrates that were set lie within the bounds, so does the bitrate of every
    /// layout.
    pub proof fn layout_bitrates_are_in_range(self, layout: AudioChannelLayout)
        requires
            self.is_in_range(),
        ensures
            OpusBitrate::MIN <= self.spec_bitrate(layout) <= OpusBitrate::MAX,
    {
    }

    /// The bitrate of each number of channels is set by itself: that of stereo follows the 2.0
    /// setting alone, that of 5.1 does not change with the 7.1 setting, nor that of 7.1 with the
    /// 5.1 setting, and a layout that is not mixed down does not change with the 2.0 setting.
    pub proof fn bitrates_are_set_separately(self, other: AudioSettings)
        ensures
            self.bitrate_2_0 == other.bitrate_2_0 ==> self.spec_bitrate(
                AudioChannelLayout::Stereo20,
            ) == other.spec_bitrate(AudioChannelLayout::Stereo20) && self.spec_bitrate(
                AudioChannelLayout::Mono,
            ) == other.spec_bitrate(AudioChannelLayout::Mono),
            self.bitrate_5_1 == other.bitrate_5_1 && !self.downmix_5_1_to_stereo
                && !other.downmix_5_1_to_stereo ==> self.spec_bitrate(
                AudioChannelLayout::Surround51,
            ) == other.spec_bitrate(AudioChannelLayout::Surround51) && self.spec_bitrate(
                AudioChannelLayout::Surround51Side,
            ) == other.spec_bitrate(AudioChannelLayout::Surround51Side),
            self.bitrate_7_1 == other.bitrate_7_1 && !self.downmix_7_1_to_stereo
                && !other.downmix_7_1_to_stereo ==> self.spec_bitrate(
                AudioChannelLayout::Surround71,
            ) == other.spec_bitrate(AudioChannelLayout::Surround71),
    {
    }

    /// A surround layout that is mixed down has the bitrate of stereo.
    pub proof fn downmixed_layouts_have_the_stereo_bitrate(self)
        ensures
            self.downmix_5_1_to_stereo ==> self.spec_bitrate(AudioChannelLayout::Surround51)
                == self.spec_bitrate(AudioChannelLayout::Stereo20) && self.spec_bitrate(
                AudioChannelLayout::Surround51Side,
            ) == self.spec_bitrate(AudioChannelLayout::Stereo20),
            self.downmix_7_1_to_stereo ==> self.spec_bitrate(AudioChannelLayout::Surround71)
                == self.spec_bitrate(AudioChannelLayout::Stereo20),
    {
    }
}

impl AudioSettings {
    /// Whether these are the settings that the application starts with.
    pub open spec fn is_default(self) -> bool {
        &&& self.bitrate_2_0@ == DEFAULT_OPUS_BITRATE_2_0
        &&& self.bitrate_5_1@ == DEFAULT_OPUS_BITRATE_5_1
        &&& self.bitrate_7_1@ == DEFAULT_OPUS_BITRATE_7_1
        &&& !self.downmix_5_1_to_stereo
        &&& !self.downmix_7_1_to_stereo
        &&& self.volume_adjustment == 100
        &&& !self.re_encode_good_audio_codecs
        &&& !self.copy
    }
}

impl Default for AudioSettings {
    fn default() -> (r: Self)
        ensures
            r.is_default(),
            r.is_in_range(),
    {
        AudioSettings {
            bitrate_2_0: OpusBitrate(DEFAULT_OPUS_BITRATE_2_0),
            bitrate_5_1: OpusBitrate(DEFAULT_OPUS_BITRATE_5_1),
            bitrate_7_1: OpusBitrate(DEFAULT_OPUS_BITRATE_7_1),
            downmix_5_1_to_stereo: false,
            downmix_7_1_to_stereo: false,
            volume_adjustment: 100,
            re_encode_good_audio_codecs: false,
            copy: false,
        }
    }
}

#[derive(Debug, Clone, Copy, PartialEq)]
pub struct EncodingSettings {
    pub video: VideoSettings,
    pub audio: AudioSettings,
}

impl EncodingSettings {
    /// Whether these are the settings that the application starts with.
    pub open spec fn is_default(self) -> bool {
        &&& self.video.is_default()
        &&& self.audio.is_default()
    }
}

impl Default for EncodingSettings {
    fn default() -> (r: Self)
        ensures
            r.is_default(),
    {
        EncodingSettings { video: VideoSettings::default(), audio: AudioSettings::default() }
    }
}

// ---------------------------------------------------------------------------------------------
// Application, title, part to encode
// ---------------------------------------------------------------------------------------------

#[derive(Debug, PartialEq)]
pub struct ApplicationSettings {
    pub last_input_directory: Option<String>,
    pub last_output_directory: Option<String>,
    pub dark_mode: bool,
    pub advanced_settings: bool,
}

impl Clone for ApplicationSettings {
    fn clone(&self) -> (r: Self)
        ensures
            r == *self,
    {
        ApplicationSettings {
            last_input_directory: paths::clone_text(&self.last_input_directory),
            last_output_directory: paths::clone_text(&self.last_output_directory),
            dark_mode: self.dark_mode,
            advanced_settings: self.advanced_settings,
        }
    }
}

impl ApplicationSettings {
    /// Whether these are the settings that the application starts with.
    pub open spec fn is_default(self) -> bool {
        &&& self.last_input_directory is None
        &&& self.last_output_directory is None
        &&& !self.dark_mode
        &&& !self.advanced_settings
    }
}

impl Default for ApplicationSettings {
    fn default() -> (r: Self)
        ensures
            r.is_default(),
    {
        ApplicationSettings {
            last_input_directory: None,
            last_output_directory: None,
            dark_mode: false,
            advanced_settings: false,
        }
    }
}

#[derive(Debug, PartialEq)]
pub struct MatroskaSettings {
    pub file_title: String,
}

impl Clone for MatroskaSettings {
    fn clone(&self) -> (r: Self)
        ensures
            r == *self,
    {
        MatroskaSettings { file_title: self.file_title.clone() }
    }
}

impl MatroskaSettings {
    /// Whether these are the settings that the application starts with.
    pub open spec fn is_default(self) -> bool {
        &&& self.file_title@.len() == 0
    }
}

impl Default for MatroskaSettings {
    fn default() -> (r: Self)
        ensures
            r.is_default(),
    {
        MatroskaSettings { file_title: String::new() }
    }
}

/// Whether `time` has the form hours, minutes, seconds, each a number, with colons between
/// them, and with fewer than 60 minutes and seconds.
pub open spec fn is_time(time: Seq<char>) -> bool {
    let parts = strings::split(time, ':');
    &&& parts.len() == 3
    &&& strings::parsed(parts[0], u32::MAX as nat) is Some
    &&& strings::parsed(parts[1], 59) is Some
    &&& strings::parsed(parts[2], 59) is Some
}

/// The time at which the part to encode starts, where there is one.
#[derive(Debug, PartialEq)]
pub struct StartTime(Option<String>);

impl View for StartTime {
    type V = Option<Seq<char>>;

    closed spec fn view(&self) -> Option<Seq<char>> {
        paths::optional_text(self.0)
    }
}

/// Which part of the input to encode.
#[derive(Debug, PartialEq)]
pub struct RunSettings {
    pub only_encode_segment: bool,
    pub start: StartTime,
    pub only_encode_for: Option<Duration>,
}

impl Clone for RunSettings {
    fn clone(&self) -> (r: Self)
        ensures
            r == *self,
    {
        RunSettings {
            only_encode_segment: self.only_encode_segment,
            start: StartTime(paths::clone_text(&self.start.0)),
            only_encode_for: self.only_encode_for,
        }
    }
}

impl RunSettings {
    /// Whether the start, if there is one, is a time.
    pub open spec fn is_valid(self) -> bool {
        self.start@ matches Some(t) ==> is_time(t)
    }

    /// Whether `time` has the form of a time.
    pub fn is_valid_time_format(time: &str) -> (b: bool)
        ensures
            b == is_time(time@),
    {
        let parts = strings::split_text(time, ':');
        let ghost all = strings::texts(parts@);
        if parts.len() != 3 {
            return false;
        }
        assert(all[0] == parts@[0]@ && all[1] == parts@[1]@ && all[2] == parts@[2]@);
        match (
            strings::parse_u32(parts[0].as_str()),
            strings::parse_u32(parts[1].as_str()),
            strings::parse_u32(parts[2].as_str()),
        ) {
            (Some(_), Some(minutes), Some(seconds)) => minutes < 60 && seconds < 60,
            _ => false,
        }
    }

    /// The settings with these values, if the start, where there is one, is a time.
    pub fn try_new(
        only_encode_segment: bool,
        only_encode_from: Option<String>,
        only_encode_for: Option<Duration>,
    ) -> (r: Result<Self, &'static str>)
        ensures
            r is Ok <==> (only_encode_from matches Some(t) ==> is_time(t@)),
            r matches Ok(run) ==> {
                &&& run.only_encode_segment == only_encode_segment
                &&& run.start@ == paths::optional_text(only_encode_from)
                &&& run.only_encode_for == only_encode_for
                &&& run.is_valid()
            },
            r matches Err(m) ==> m@ == "Invalid time format for only_encode_from"@,
    {
        if let Some(encode_from) = &only_encode_from {
            if !Self::is_valid_time_format(encode_from.as_str()) {
                return Err("Invalid time format for only_encode_from");
            }
        }
        Ok(
            RunSettings {
                only_encode_segment,
                start: StartTime(only_encode_from),
                only_encode_for,
            },
        )
    }

    /// The settings that stand in a settings file, whose values are taken as they are.
    pub fn from_stored(
        only_encode_segment: bool,
        only_encode_from: Option<String>,
        only_encode_for: Option<Duration>,
    ) -> (r: Self)
        ensures
            r.only_encode_segment == only_encode_segment,
            r.start@ == paths::optional_text(only_encode_from),
            r.only_encode_for == only_encode_for,
    {
        RunSettings { only_encode_segment, start: StartTime(only_encode_from), only_encode_for }
    }

    /// Sets the start, if `duration` is a time, and changes nothing otherwise.
    pub fn set_only_encode_from(&mut self, duration: String) -> (r: Result<(), &'static str>)
        ensures
            r is Ok <==> is_time(duration@),
            r is Ok ==> final(self).start@ == Some(duration@),
            r matches Err(m) ==> m@ == "Invalid time format given."@ && *final(self) == *old(self),
            final(self).only_encode_segment == old(self).only_encode_segment,
            final(self).only_encode_for == old(self).only_encode_for,
            old(self).is_valid() ==> final(self).is_valid(),
    {
        if !Self::is_valid_time_format(duration.as_str()) {
            return Err("Invalid time format given.");
        }
        self.start = StartTime(Some(duration));
        Ok(())
    }

    /// Sets how long to encode to the seconds that `seconds` says, or to none where it is no
    /// number.
    pub fn set_only_encode_for(&mut self, seconds: &str)
        ensures
            final(self).only_encode_for is Some,
            final(self).only_encode_for->0@ == NANOS_PER_SEC * (match strings::parsed(
                seconds@,
                u64::MAX as nat,
            ) {
                Some(n) => n,
                None => 0,
            }),
            final(self).only_encode_segment == old(self).only_encode_segment,
            final(self).start == old(self).start,
    {
        let number: u64 = match strings::parse_decimal(seconds, u64::MAX) {
            Some(n) => n,
            None => 0,
        };
        self.only_encode_for = Some(Duration::from_secs(number));
    }

    /// The start.
    pub fn only_encode_from(&self) -> (r: Option<&String>)
        ensures
            r matches Some(t) ==> self.start@ == Some(t@),
            r is None ==> self.start@ is None,
    {
        self.start.0.as_ref()
    }
}

impl RunSettings {
    /// Whether these are the settings that the application starts with.
    pub open spec fn is_default(self) -> bool {
        &&& !self.only_encode_segment
        &&& self.start@ is None
        &&& self.only_encode_for is None
    }
}

impl Default for RunSettings {
    fn default() -> (r: Self)
        ensures
            r.is_default(),
    {
        RunSettings { only_encode_segment: false, start: StartTime(None), only_encode_for: None }
    }
}

// ---------------------------------------------------------------------------------------------
// All settings
// ---------------------------------------------------------------------------------------------

#[derive(Debug, PartialEq)]
pub struct Settings {
    pub version: i32,
    pub paths: PathSettings,
    pub encoding: EncodingSettings,
    pub matroska: MatroskaSettings,
    pub run: RunSettings,
    pub application: ApplicationSettings,
}

impl Clone for Settings {
    fn clone(&self) -> (r: Self)
        ensures
            r == *self,
    {
        Settings {
            version: self.version,
            paths: self.paths.clone(),
            encoding: self.encoding,
            matroska: self.matroska.clone(),
            run: self.run.clone(),
            application: self.application.clone(),
        }
    }
}

impl Settings {
    /// Whether these are the settings that the application starts with.
    pub open spec fn is_default(self) -> bool {
        &&& self.version == 1
        &&& self.paths.is_default()
        &&& self.encoding.is_default()
        &&& self.matroska.is_default()
        &&& self.run.is_default()
        &&& self.application.is_default()
    }
}

impl Settings {
    /// The settings that were stored, or those that the application starts with where none could
    /// be read.
    pub fn new(stored: Option<Settings>) -> (r: Self)
        ensures
            stored matches Some(s) ==> r == s,
            stored is None ==> r.is_default(),
    {
        match stored {
            Some(settings) => settings,
            None => Settings::default(),
        }
    }
}

impl Default for Settings {
    fn default() -> (r: Self)
        ensures
            r.is_default(),
    {
        Settings {
            version: 1,
            paths: PathSettings::default(),
            encoding: EncodingSettings::default(),
            matroska: MatroskaSettings::default(),
            run: RunSettings::default(),
            application: ApplicationSettings::default(),
        }
    }
}

} // verus!
