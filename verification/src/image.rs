//! One user's profile image: where its files are kept, which uploads are
//! taken, how the square is cut out of the source and how each size is made.
//!
//! File names are relative to the directory that holds all images. The
//! original upload is kept under the user's id alone, each derived size under
//! `id.size.extension`. Ids and sizes are written in base ten, so no two
//! different files share a name.

use crate::decimal::{
    all_digits, decimal, is_digit, lemma_decimal_digits, lemma_decimal_injective, to_decimal,
};
use crate::error::AppError;
use crate::format::{
    classified, extension_of, mime_type_of, probe, probed, Probe, SupportedFormat,
};
use vstd::prelude::*;
use vstd::string::*;

verus! {

/// The encoding derived sizes are stored and served in unless configured
/// otherwise, whatever the upload came in.
pub const IMAGE_SAVE_TYPE: SupportedFormat = SupportedFormat::Webp;

/// The largest width or height an upload may have unless configured
/// otherwise.
pub const MAX_RESOLUTION: u32 = 10000;

/// How images are taken and stored: the sizes every image is derived in, the
/// largest width and height an upload may have, and the encoding the derived
/// sizes are stored in.
#[derive(Debug, Clone, PartialEq, Eq)]
pub struct ImageConfig {
    pub sizes: Vec<u32>,
    pub max_resolution: u32,
    pub save_type: SupportedFormat,
}

/// The images of one user, with the settings they are taken and named by.
#[derive(Debug, Clone, Copy, PartialEq, Eq, Structural)]
pub struct ProfileImage {
    pub user_id: u32,
    pub max_resolution: u32,
    pub save_type: SupportedFormat,
}

/// The square that is cut out of a source image: its top left corner and the
/// length of its side, in pixels.
#[derive(Debug, Clone, Copy, PartialEq, Eq, Structural)]
pub struct CropRect {
    pub x: u32,
    pub y: u32,
    pub side: u32,
}

/// An upload that was taken: the user it belongs to, the encoding it came in
/// and its size in pixels.
#[derive(Debug, Clone, Copy, PartialEq, Eq, Structural)]
pub struct DataImage {
    pub profile: ProfileImage,
    pub format: SupportedFormat,
    pub width: u32,
    pub height: u32,
}

/// The name of the file that keeps a user's original upload.
pub open spec fn original_name(user_id: u32) -> Seq<char> {
    decimal(user_id as nat)
}

/// A name in two parts: `head`, a dot, `tail`.
pub open spec fn dotted(head: Seq<char>, tail: Seq<char>) -> Seq<char> {
    head + seq!['.'] + tail
}

/// The name of the file that keeps one derived size of a user's image.
pub open spec fn derived_name(user_id: u32, size: u32, format: SupportedFormat) -> Seq<char> {
    dotted(decimal(user_id as nat), dotted(decimal(size as nat), extension_of(format)))
}

/// The square cut out of a `width` by `height` image: as large as fits, in
/// the middle of the longer axis (the odd pixel, if any, stays on the far
/// side).
pub open spec fn centered_square(width: u32, height: u32) -> CropRect {
    if width <= height {
        CropRect { x: 0, y: ((height - width) / 2) as u32, side: width }
    } else {
        CropRect { x: ((width - height) / 2) as u32, y: 0, side: height }
    }
}

/// Whether an image of this size is within the resolution ceiling.
pub open spec fn within_resolution(width: u32, height: u32, max_resolution: u32) -> bool {
    width <= max_resolution && height <= max_resolution
}

/// The sizes every image is derived in unless configured otherwise.
pub open spec fn standard_sizes() -> Seq<u32> {
    seq![64u32, 128u32, 256u32, 512u32]
}

/// Whether each of the sizes is larger than the one before it.
pub open spec fn strictly_increasing(sizes: Seq<u32>) -> bool {
    forall|i: int, j: int| 0 <= i < j < sizes.len() ==> sizes[i] < sizes[j]
}

/// The images of a user under the given settings.
pub open spec fn profile_of(user_id: u32, config: ImageConfig) -> ProfileImage {
    ProfileImage { user_id, max_resolution: config.max_resolution, save_type: config.save_type }
}

/// What becomes of an upload for `profile` once its encoding and, where that
/// is an accepted one, what reading its header gave are known: a wrong or
/// unreadable file is refused as such; one beyond the ceiling, or beyond what
/// the decoder takes in, as too large; any other is taken.
pub open spec fn admitted(
    profile: ProfileImage,
    format: Result<SupportedFormat, AppError>,
    header: Probe,
) -> Result<DataImage, AppError> {
    match format {
        Err(e) => Err(e),
        Ok(format) => match header {
            Probe::Unreadable => Err(AppError::WrongFileType),
            Probe::TooLarge => Err(AppError::ImageResTooLarge),
            Probe::Size(width, height) => if within_resolution(
                width,
                height,
                profile.max_resolution,
            ) {
                Ok(DataImage { profile, format, width, height })
            } else {
                Err(AppError::ImageResTooLarge)
            },
        },
    }
}

/// What reading the header of the data gave, in the encoding the data
/// starts like; unreadable where it starts like no accepted encoding.
pub open spec fn upload_probe(data: Seq<u8>) -> Probe {
    match classified(data) {
        Ok(format) => probed(data, format),
        Err(_) => Probe::Unreadable,
    }
}

/// Whether the header of an upload tells of an image beyond the ceiling.
pub open spec fn is_beyond(header: Probe, max_resolution: u32) -> bool {
    match header {
        Probe::Size(width, height) => !within_resolution(width, height, max_resolution),
        Probe::TooLarge => true,
        Probe::Unreadable => false,
    }
}

/// If two dotted names are equal and their heads hold digits only, then the
/// heads are equal and so are the tails.
pub proof fn lemma_dotted_parts(h1: Seq<char>, t1: Seq<char>, h2: Seq<char>, t2: Seq<char>)
    requires
        all_digits(h1),
        all_digits(h2),
        dotted(h1, t1) == dotted(h2, t2),
    ensures
        h1 == h2,
        t1 == t2,
{
    let n1 = dotted(h1, t1);
    let n2 = dotted(h2, t2);
    if h1.len() < h2.len() {
        assert(n1[h1.len() as int] == '.');
        assert(n2[h1.len() as int] == h2[h1.len() as int]);
        assert(is_digit(h2[h1.len() as int]));
    }
    if h2.len() < h1.len() {
        assert(n2[h2.len() as int] == '.');
        assert(n1[h2.len() as int] == h1[h2.len() as int]);
        assert(is_digit(h1[h2.len() as int]));
    }
    assert(h1.len() == h2.len());
    assert(n1.subrange(0, h1.len() as int) =~= h1);
    assert(n2.subrange(0, h2.len() as int) =~= h2);
    assert(n1.subrange(h1.len() as int + 1, n1.len() as int) =~= t1);
    assert(n2.subrange(h2.len() as int + 1, n2.len() as int) =~= t2);
}

/// No two files share a name: the originals of two users differ, the derived
/// files of two (user, size) pairs differ, and no original is named like a
/// derived file.
pub proof fn lemma_names_are_distinct(
    user_a: u32,
    size_a: u32,
    user_b: u32,
    size_b: u32,
    format: SupportedFormat,
)
    ensures
        original_name(user_a) == original_name(user_b) ==> user_a == user_b,
        derived_name(user_a, size_a, format) == derived_name(user_b, size_b, format) ==> user_a
            == user_b && size_a == size_b,
        original_name(user_a) != derived_name(user_b, size_b, format),
{
    lemma_decimal_digits(user_a as nat);
    lemma_decimal_digits(user_b as nat);
    lemma_decimal_digits(size_a as nat);
    lemma_decimal_digits(size_b as nat);
    if original_name(user_a) == original_name(user_b) {
        lemma_decimal_injective(user_a as nat, user_b as nat);
    }
    if derived_name(user_a, size_a, format) == derived_name(user_b, size_b, format) {
        lemma_dotted_parts(
            decimal(user_a as nat),
            dotted(decimal(size_a as nat), extension_of(format)),
            decimal(user_b as nat),
            dotted(decimal(size_b as nat), extension_of(format)),
        );
        lemma_dotted_parts(
            decimal(size_a as nat),
            extension_of(format),
            decimal(size_b as nat),
            extension_of(format),
        );
        lemma_decimal_injective(user_a as nat, user_b as nat);
        lemma_decimal_injective(size_a as nat, size_b as nat);
    }
    if original_name(user_a) == derived_name(user_b, size_b, format) {
        let name = derived_name(user_b, size_b, format);
        let at = decimal(user_b as nat).len() as int;
        assert(name[at] == '.');
        assert(is_digit(original_name(user_a)[at]));
    }
}

/// The square that is cut out of a `width` by `height` image.
pub fn center_crop(width: u32, height: u32) -> (crop: CropRect)
    ensures
        crop == centered_square(width, height),
        crop.side == width || crop.side == height,
        crop.side <= width && crop.side <= height,
        crop.x + crop.side <= width,
        crop.y + crop.side <= height,
        crop.x == 0 || crop.y == 0,
        width - crop.side - 2 * crop.x == 0 || width - crop.side - 2 * crop.x == 1,
        height - crop.side - 2 * crop.y == 0 || height - crop.side - 2 * crop.y == 1,
{
    if width <= height {
        CropRect { x: 0, y: (height - width) / 2, side: width }
    } else {
        CropRect { x: (width - height) / 2, y: 0, side: height }
    }
}

impl ImageConfig {
    /// Whether the settings are well formed: there is at least one size, and
    /// the sizes are in ascending order, none of them twice.
    pub open spec fn wf(&self) -> bool {
        self.sizes.len() > 0 && strictly_increasing(self.sizes@)
    }

    /// Settings with the given sizes, ceiling and encoding; none where the
    /// sizes are not well formed.
    pub fn new(sizes: Vec<u32>, max_resolution: u32, save_type: SupportedFormat) -> (config: Option<
        ImageConfig,
    >)
        ensures
            config is Some <==> sizes.len() > 0 && strictly_increasing(sizes@),
            config matches Some(c) ==> c == (ImageConfig { sizes, max_resolution, save_type })
                && c.wf(),
    {
        if sizes.len() == 0 {
            return None;
        }
        let mut i: usize = 1;
        while i < sizes.len()
            invariant
                1 <= i <= sizes.len(),
                forall|a: int, b: int| 0 <= a < b < i ==> sizes[a] < sizes[b],
            decreases sizes.len() - i,
        {
            if sizes[i - 1] >= sizes[i] {
                return None;
            }
            i = i + 1;
        }
        Some(ImageConfig { sizes, max_resolution, save_type })
    }

    /// The settings the service runs with: 64, 128, 256 and 512 pixels, no
    /// upload beyond 10000 pixels either way, everything stored as WebP.
    pub fn standard() -> (config: ImageConfig)
        ensures
            config.wf(),
            config.sizes@ == standard_sizes(),
            config.max_resolution == MAX_RESOLUTION,
            config.save_type == IMAGE_SAVE_TYPE,
    {
        let mut sizes: Vec<u32> = Vec::new();
        sizes.push(64);
        sizes.push(128);
        sizes.push(256);
        sizes.push(512);
        assert(sizes@ =~= standard_sizes());
        ImageConfig { sizes, max_resolution: MAX_RESOLUTION, save_type: IMAGE_SAVE_TYPE }
    }
}

impl ProfileImage {
    pub fn new(user_id: u32, config: &ImageConfig) -> (profile: Self)
        ensures
            profile == profile_of(user_id, *config),
    {
        Self { user_id, max_resolution: config.max_resolution, save_type: config.save_type }
    }

    /// The name of the file that keeps the original upload.
    pub fn path_orig(&self) -> (name: String)
        ensures
            name@ == original_name(self.user_id),
    {
        to_decimal(self.user_id as u64)
    }

    /// The name of the file that keeps the derived image of the given size.
    pub fn path(&self, size: u32) -> (name: String)
        ensures
            name@ == derived_name(self.user_id, size, self.save_type),
    {
        proof {
            reveal_strlit(".");
        }
        let mut name = to_decimal(self.user_id as u64);
        name.append(".");
        let size_text = to_decimal(size as u64);
        name.append(size_text.as_str());
        name.append(".");
        name.append(self.save_type.extension());
        assert(name@ =~= derived_name(self.user_id, size, self.save_type));
        name
    }

    /// Takes or refuses an upload. The data is classified by its first bytes
    /// and decoded as far as its size; nothing is written.
    pub fn with_data(self, data: &[u8]) -> (result: Result<DataImage, AppError>)
        ensures
            result == admitted(self, classified(data@), upload_probe(data@)),
    {
        match SupportedFormat::guess(data) {
            Err(e) => Err(e),
            Ok(format) => DataImage::from_decoded(self, Ok(format), probe(data, format)),
        }
    }
}

impl DataImage {
    /// Decides on an upload whose encoding is known, and what reading its
    /// header gave.
    pub fn from_decoded(
        profile: ProfileImage,
        format: Result<SupportedFormat, AppError>,
        header: Probe,
    ) -> (result: Result<DataImage, AppError>)
        ensures
            result == admitted(profile, format, header),
    {
        match format {
            Err(e) => Err(e),
            Ok(format) => match header {
                Probe::Unreadable => Err(AppError::WrongFileType),
                Probe::TooLarge => Err(AppError::ImageResTooLarge),
                Probe::Size(width, height) => {
                    if width <= profile.max_resolution && height <= profile.max_resolution {
                        Ok(DataImage { profile, format, width, height })
                    } else {
                        Err(AppError::ImageResTooLarge)
                    }
                },
            },
        }
    }

    /// The square of the source that every derived size is made from.
    pub fn crop(&self) -> (crop: CropRect)
        ensures
            crop == centered_square(self.width, self.height),
    {
        center_crop(self.width, self.height)
    }
}

/// One derived size to be made: what is cut out of which file, how large the
/// result is, where it goes, and the arguments the resizer is run with to do
/// so.
#[derive(Debug, Clone, PartialEq, Eq)]
pub struct ResizeJob {
    pub size: u32,
    pub width: u32,
    pub height: u32,
    pub crop: CropRect,
    pub source: String,
    pub target: String,
    pub arguments: Vec<String>,
}

/// What opening an image file gave.
#[derive(Debug, Clone, PartialEq, Eq)]
pub enum Opened {
    /// The file is there and can be read.
    File,
    /// There is no such file.
    Missing,
    /// The file could not be opened for another reason; the text says why.
    Failed(String),
}

/// What a request for an image is answered with.
#[derive(Debug, Clone, PartialEq, Eq)]
pub enum ResponseImage {
    /// The stored file of this name, which is in this encoding.
    File { name: String, format: SupportedFormat },
    /// The placeholder of this user.
    Placeholder(u32),
}

/// The texts of a row of strings.
pub open spec fn texts(strings: Seq<String>) -> Seq<Seq<char>> {
    Seq::new(strings.len(), |i: int| strings[i]@)
}

/// A size in pixels as the resizer reads it: `width`, an `x`, `height`.
pub open spec fn geometry(width: u32, height: u32) -> Seq<char> {
    decimal(width as nat) + seq!['x'] + decimal(height as nat)
}

/// The region to cut out, as the resizer reads it: the size of the square,
/// then its horizontal and vertical offset, each behind a `+`.
pub open spec fn crop_argument(crop: CropRect) -> Seq<char> {
    geometry(crop.side, crop.side) + seq!['+'] + decimal(crop.x as nat) + seq!['+'] + decimal(
        crop.y as nat,
    )
}

/// The size to scale to, as the resizer reads it: the square of side `size`,
/// with the mark that asks for exactly this size.
pub open spec fn resize_argument(size: u32) -> Seq<char> {
    geometry(size, size) + seq!['!']
}

/// The arguments the resizer is run with to make one size of an upload: read
/// the original, cut out the centered square, scale it to the size, write the
/// derived file.
pub open spec fn resizer_arguments(image: DataImage, size: u32) -> Seq<Seq<char>> {
    seq![
        original_name(image.profile.user_id),
        "-coalesce"@,
        "-crop"@,
        crop_argument(centered_square(image.width, image.height)),
        "+repage"@,
        "-filter"@,
        "Robidoux"@,
        "-resize"@,
        resize_argument(size),
        derived_name(image.profile.user_id, size, image.profile.save_type),
    ]
}

/// Whether `job` is the job that makes the given size of the given upload.
pub open spec fn is_job_for(job: ResizeJob, image: DataImage, size: u32) -> bool {
    &&& job.size == size
    &&& job.width == size
    &&& job.height == size
    &&& job.crop == centered_square(image.width, image.height)
    &&& job.source@ == original_name(image.profile.user_id)
    &&& job.target@ == derived_name(image.profile.user_id, size, image.profile.save_type)
    &&& texts(job.arguments@) == resizer_arguments(image, size)
}

/// What a run of the resizer comes to, given whether it reported success and
/// what it wrote to its error stream: success stands, a failure carries the
/// stream's text, and a stream that is no text is a failure of its own.
pub open spec fn is_resizer_result(
    success: bool,
    stderr: Seq<u8>,
    result: Result<(), AppError>,
) -> bool {
    if success {
        result is Ok
    } else if vstd::utf8::valid_utf8(stderr) {
        result matches Err(AppError::Magick(text)) && text@ == vstd::utf8::decode_utf8(stderr)
    } else {
        result matches Err(AppError::Internal(text)) && text@ == "utf8"@
    }
}

/// What a run of several jobs comes to: the first failure in the order the
/// jobs ended, success where none failed.
pub open spec fn settled(outcomes: Seq<Result<(), AppError>>) -> Result<(), AppError>
    decreases outcomes.len(),
{
    if outcomes.len() == 0 {
        Ok(())
    } else if outcomes[0] is Err {
        outcomes[0]
    } else {
        settled(outcomes.subrange(1, outcomes.len() as int))
    }
}

/// Whether `result` answers a request for the given size of a user's image,
/// given what opening its file gave.
pub open spec fn is_fetched(
    profile: ProfileImage,
    size: u32,
    opened: Opened,
    result: Result<ResponseImage, AppError>,
) -> bool {
    match opened {
        Opened::File => result matches Ok(ResponseImage::File { name, format }) && name@
            == derived_name(profile.user_id, size, profile.save_type) && format
            == profile.save_type,
        Opened::Missing => result == Err::<ResponseImage, AppError>(AppError::NotFound),
        Opened::Failed(message) => result == Err::<ResponseImage, AppError>(
            AppError::Io(message),
        ),
    }
}

/// The media type a response is served as.
pub open spec fn content_type_of(image: ResponseImage) -> Seq<char> {
    match image {
        ResponseImage::File { format, .. } => mime_type_of(format),
        ResponseImage::Placeholder(_) => "image/svg+xml"@,
    }
}

/// A run settles well exactly if every job did.
pub proof fn lemma_settled_ok(outcomes: Seq<Result<(), AppError>>)
    ensures
        settled(outcomes) is Ok <==> forall|i: int|
            0 <= i < outcomes.len() ==> (#[trigger] outcomes[i]) is Ok,
    decreases outcomes.len(),
{
    if outcomes.len() > 0 {
        let rest = outcomes.subrange(1, outcomes.len() as int);
        lemma_settled_ok(rest);
        if outcomes[0] is Ok {
            if settled(outcomes) is Ok {
                assert forall|i: int| 0 <= i < outcomes.len() implies (#[trigger] outcomes[i]) is Ok by {
                    if i > 0 {
                        assert(rest[i - 1] == outcomes[i]);
                    }
                }
            } else {
                let k = choose|k: int| 0 <= k < rest.len() && !((#[trigger] rest[k]) is Ok);
                assert(outcomes[k + 1] == rest[k]);
            }
        }
    }
}

/// A failed run reports one of its jobs' failures, and every job that ended
/// before that one did well.
pub proof fn lemma_settled_first(outcomes: Seq<Result<(), AppError>>)
    requires
        settled(outcomes) is Err,
    ensures
        exists|i: int|
            0 <= i < outcomes.len() && #[trigger] outcomes[i] == settled(outcomes) && forall|j: int|
                0 <= j < i ==> (#[trigger] outcomes[j]) is Ok,
    decreases outcomes.len(),
{
    if outcomes[0] is Err {
        assert(outcomes[0] == settled(outcomes));
    } else {
        let rest = outcomes.subrange(1, outcomes.len() as int);
        lemma_settled_first(rest);
        let k = choose|k: int|
            0 <= k < rest.len() && #[trigger] rest[k] == settled(rest) && forall|j: int|
                0 <= j < k ==> (#[trigger] rest[j]) is Ok;
        assert(outcomes[k + 1] == rest[k]);
        assert forall|j: int| 0 <= j < k + 1 implies (#[trigger] outcomes[j]) is Ok by {
            if j > 0 {
                assert(rest[j - 1] == outcomes[j]);
            }
        }
    }
}

/// `std::str::from_utf8`: the text that the bytes encode, where they are
/// valid UTF-8, and nothing where they are not.
#[verifier::external_body]
fn utf8_text(bytes: &[u8]) -> (text: Option<String>)
    ensures
        text is Some <==> vstd::utf8::valid_utf8(bytes@),
        text matches Some(s) ==> s@ == vstd::utf8::decode_utf8(bytes@),
{
    match std::str::from_utf8(bytes) {
        Ok(text) => Some(text.to_string()),
        Err(_) => None,
    }
}

fn geometry_text(width: u32, height: u32) -> (text: String)
    ensures
        text@ == geometry(width, height),
{
    proof {
        reveal_strlit("x");
    }
    let mut text = to_decimal(width as u64);
    text.append("x");
    let height_text = to_decimal(height as u64);
    text.append(height_text.as_str());
    assert(text@ =~= geometry(width, height));
    text
}

fn crop_text(crop: CropRect) -> (text: String)
    ensures
        text@ == crop_argument(crop),
{
    proof {
        reveal_strlit("+");
    }
    let mut text = geometry_text(crop.side, crop.side);
    text.append("+");
    let x_text = to_decimal(crop.x as u64);
    text.append(x_text.as_str());
    text.append("+");
    let y_text = to_decimal(crop.y as u64);
    text.append(y_text.as_str());
    assert(text@ =~= crop_argument(crop));
    text
}

fn resize_text(size: u32) -> (text: String)
    ensures
        text@ == resize_argument(size),
{
    proof {
        reveal_strlit("!");
    }
    let mut text = geometry_text(size, size);
    text.append("!");
    assert(text@ =~= resize_argument(size));
    text
}

impl ProfileImage {
    /// Answers a request for one size, given what opening its file gave: the
    /// file where it is there, `NotFound` where it is missing.
    pub fn get(&self, size: u32, opened: Opened) -> (result: Result<ResponseImage, AppError>)
        ensures
            is_fetched(*self, size, opened, result),
    {
        match opened {
            Opened::File => Ok(ResponseImage::File { name: self.path(size), format: self.save_type }),
            Opened::Missing => Err(AppError::NotFound),
            Opened::Failed(message) => Err(AppError::Io(message)),
        }
    }

    /// As `get`, but a missing file is answered with the user's placeholder.
    pub fn get_with_placeholder(&self, size: u32, opened: Opened) -> (result: Result<
        ResponseImage,
        AppError,
    >)
        ensures
            opened is Missing ==> result == Ok::<ResponseImage, AppError>(
                ResponseImage::Placeholder(self.user_id),
            ),
            !(opened is Missing) ==> is_fetched(*self, size, opened, result),
    {
        match opened {
            Opened::Missing => Ok(ResponseImage::Placeholder(self.user_id)),
            other => self.get(size, other),
        }
    }
}

impl ResponseImage {
    /// The media type this response is served as.
    pub fn content_type(&self) -> (s: &'static str)
        ensures
            s@ == content_type_of(*self),
    {
        match self {
            ResponseImage::File { format, .. } => format.mime_type(),
            ResponseImage::Placeholder(_) => "image/svg+xml",
        }
    }
}

impl DataImage {
    /// The job that makes one size of this upload: a square of `size` by
    /// `size` pixels, scaled from the centered square of the source.
    pub fn save_size(&self, size: u32) -> (job: ResizeJob)
        ensures
            is_job_for(job, *self, size),
            job.width == job.height == size,
    {
        let crop = self.crop();
        let mut arguments: Vec<String> = Vec::new();
        arguments.push(self.profile.path_orig());
        arguments.push(String::from_str("-coalesce"));
        arguments.push(String::from_str("-crop"));
        arguments.push(crop_text(crop));
        arguments.push(String::from_str("+repage"));
        arguments.push(String::from_str("-filter"));
        arguments.push(String::from_str("Robidoux"));
        arguments.push(String::from_str("-resize"));
        arguments.push(resize_text(size));
        arguments.push(self.profile.path(size));
        assert(texts(arguments@) =~= resizer_arguments(*self, size));
        ResizeJob {
            size,
            width: size,
            height: size,
            crop,
            source: self.profile.path_orig(),
            target: self.profile.path(size),
            arguments,
        }
    }

    /// The jobs that make all the given sizes of this upload, one for each
    /// size and in the order of the sizes.
    pub fn save_sizes(&self, sizes: &[u32]) -> (jobs: Vec<ResizeJob>)
        ensures
            jobs.len() == sizes.len(),
            forall|i: int| 0 <= i < sizes.len() ==> is_job_for(#[trigger] jobs[i], *self, sizes[i]),
    {
        let mut jobs: Vec<ResizeJob> = Vec::new();
        let mut i: usize = 0;
        while i < sizes.len()
            invariant
                i <= sizes.len(),
                jobs.len() == i,
                forall|k: int| 0 <= k < i ==> is_job_for(#[trigger] jobs[k], *self, sizes[k]),
            decreases sizes.len() - i,
        {
            jobs.push(self.save_size(sizes[i]));
            i = i + 1;
        }
        jobs
    }

    /// What one run of the resizer comes to.
    pub fn resizer_result(success: bool, stderr: &[u8]) -> (result: Result<(), AppError>)
        ensures
            is_resizer_result(success, stderr@, result),
    {
        if success {
            Ok(())
        } else {
            match utf8_text(stderr) {
                Some(text) => Err(AppError::Magick(text)),
                None => Err(AppError::Internal(String::from_str("utf8"))),
            }
        }
    }

    /// What an upload comes to once every job has ended, given the jobs'
    /// outcomes in the order they ended.
    pub fn settle(outcomes: Vec<Result<(), AppError>>) -> (result: Result<(), AppError>)
        ensures
            result == settled(outcomes@),
    {
        let mut left = outcomes;
        let ghost all = left@;
        let mut i: usize = 0;
        assert(all.subrange(0, all.len() as int) =~= all);
        while i < left.len()
            invariant
                i <= left.len(),
                left@ == all,
                all == outcomes@,
                settled(all) == settled(all.subrange(i as int, all.len() as int)),
            decreases left.len() - i,
        {
            let ghost rest = all.subrange(i as int, all.len() as int);
            if left[i].is_err() {
                assert(rest[0] == all[i as int]);
                assert(settled(rest) == rest[0]);
                return left.remove(i);
            }
            assert(rest[0] == all[i as int]);
            assert(rest.subrange(1, rest.len() as int) =~= all.subrange(
                i + 1,
                all.len() as int,
            ));
            i = i + 1;
        }
        Ok(())
    }
}

} // verus!
