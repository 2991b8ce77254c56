//! The configuration model: which outputs get a background, where its images
//! come from, and how they are rotated, scaled and filtered.

use vstd::prelude::*;

verus! {

/// The outputs that a background applies to.
#[derive(Debug)]
pub enum CosmicBgOutput {
    /// Every output.
    All,
    /// The one output with this make and model.
    MakeModel { make: String, model: String },
}

/// A `CosmicBgOutput` as plain values.
pub enum OutputView {
    All,
    MakeModel { make: Seq<char>, model: Seq<char> },
}

impl View for CosmicBgOutput {
    type V = OutputView;

    open spec fn view(&self) -> OutputView {
        match self {
            CosmicBgOutput::All => OutputView::All,
            CosmicBgOutput::MakeModel { make, model } => OutputView::MakeModel {
                make: make@,
                model: model@,
            },
        }
    }
}

impl Clone for CosmicBgOutput {
    fn clone(&self) -> (copy: Self)
        ensures
            copy@ == self@,
    {
        match self {
            CosmicBgOutput::All => CosmicBgOutput::All,
            CosmicBgOutput::MakeModel { make, model } => CosmicBgOutput::MakeModel {
                make: make.clone(),
                model: model.clone(),
            },
        }
    }
}

impl PartialEq for CosmicBgOutput {
    fn eq(&self, other: &Self) -> (same: bool) {
        match self {
            CosmicBgOutput::All => match other {
                CosmicBgOutput::All => true,
                CosmicBgOutput::MakeModel { .. } => false,
            },
            CosmicBgOutput::MakeModel { make, model } => match other {
                CosmicBgOutput::All => false,
                CosmicBgOutput::MakeModel { make: other_make, model: other_model } => *make
                    == *other_make && *model == *other_model,
            },
        }
    }
}

impl Eq for CosmicBgOutput {

}

impl vstd::std_specs::cmp::PartialEqSpecImpl for CosmicBgOutput {
    open spec fn obeys_eq_spec() -> bool {
        true
    }

    open spec fn eq_spec(&self, other: &Self) -> bool {
        self@ == other@
    }
}

/// Where the images of a background come from.
#[derive(Debug)]
pub enum CosmicBgImgSource {
    /// The `Wallpapers` folder of the user's pictures directory.
    Wallpapers,
    /// A specific directory or file.
    Path(String),
}

/// A `CosmicBgImgSource` as plain values.
pub enum ImgSourceView {
    Wallpapers,
    Path(Seq<char>),
}

impl View for CosmicBgImgSource {
    type V = ImgSourceView;

    open spec fn view(&self) -> ImgSourceView {
        match self {
            CosmicBgImgSource::Wallpapers => ImgSourceView::Wallpapers,
            CosmicBgImgSource::Path(path) => ImgSourceView::Path(path@),
        }
    }
}

impl Clone for CosmicBgImgSource {
    fn clone(&self) -> (copy: Self)
        ensures
            copy@ == self@,
    {
        match self {
            CosmicBgImgSource::Wallpapers => CosmicBgImgSource::Wallpapers,
            CosmicBgImgSource::Path(path) => CosmicBgImgSource::Path(path.clone()),
        }
    }
}

impl PartialEq for CosmicBgImgSource {
    fn eq(&self, other: &Self) -> (same: bool) {
        match self {
            CosmicBgImgSource::Wallpapers => match other {
                CosmicBgImgSource::Wallpapers => true,
                CosmicBgImgSource::Path(_) => false,
            },
            CosmicBgImgSource::Path(path) => match other {
                CosmicBgImgSource::Wallpapers => false,
                CosmicBgImgSource::Path(other_path) => *path == *other_path,
            },
        }
    }
}

impl Eq for CosmicBgImgSource {

}

impl vstd::std_specs::cmp::PartialEqSpecImpl for CosmicBgImgSource {
    open spec fn obeys_eq_spec() -> bool {
        true
    }

    open spec fn eq_spec(&self, other: &Self) -> bool {
        self@ == other@
    }
}

/// The filter used to scale images.
#[derive(Debug, Clone, Copy, PartialEq, Eq, Structural)]
pub enum FilterMethod {
    /// Nearest neighbor filtering.
    Nearest,
    /// Linear filtering.
    Linear,
    /// Lanczos filtering with window 3.
    Lanczos,
}

impl Default for FilterMethod {
    fn default() -> (method: Self)
        ensures
            method == FilterMethod::Lanczos,
    {
        FilterMethod::Lanczos
    }
}

/// The order in which the images of a source are shown.
#[derive(Debug, Clone, Copy, PartialEq, Eq, Structural)]
pub enum SamplingMethod {
    /// Rotate through the images in alphanumeric order.
    Alphanumeric,
    /// Rotate through the images in random order.
    Random,
}

impl Default for SamplingMethod {
    fn default() -> (method: Self)
        ensures
            method == SamplingMethod::Alphanumeric,
    {
        SamplingMethod::Alphanumeric
    }
}

/// How an image is fitted to the area of an output.
#[derive(Debug, Clone, Copy, PartialEq, Eq)]
pub enum ScalingMode {
    /// Fit the image and fill the rest of the area with a colour. The three
    /// channels are single-precision numbers, held here as their bit
    /// patterns.
    Fit([u32; 3]),
    /// Stretch the image to the area, whatever its aspect ratio.
    Stretch,
    /// Zoom the image so that it fills the whole area.
    Zoom,
}

impl Default for ScalingMode {
    fn default() -> (mode: Self)
        ensures
            mode == ScalingMode::Zoom,
    {
        ScalingMode::Zoom
    }
}

/// The background of one output target.
#[derive(Debug)]
pub struct CosmicBgEntry {
    /// The configured output.
    pub output: CosmicBgOutput,
    /// The configured image source.
    pub source: CosmicBgImgSource,
    /// Whether the images are filtered by the active theme.
    pub filter_by_theme: bool,
    /// Seconds between two rotations; zero means no automatic rotation.
    pub rotation_frequency: u64,
    /// The filter used to scale images.
    pub filter_method: FilterMethod,
    /// The mode used to scale images.
    pub scaling_mode: ScalingMode,
    /// The order in which images are shown.
    pub sampling_method: SamplingMethod,
}

/// A `CosmicBgEntry` as plain values.
pub struct EntryView {
    pub output: OutputView,
    pub source: ImgSourceView,
    pub filter_by_theme: bool,
    pub rotation_frequency: u64,
    pub filter_method: FilterMethod,
    pub scaling_mode: ScalingMode,
    pub sampling_method: SamplingMethod,
}

impl View for CosmicBgEntry {
    type V = EntryView;

    open spec fn view(&self) -> EntryView {
        EntryView {
            output: self.output@,
            source: self.source@,
            filter_by_theme: self.filter_by_theme,
            rotation_frequency: self.rotation_frequency,
            filter_method: self.filter_method,
            scaling_mode: self.scaling_mode,
            sampling_method: self.sampling_method,
        }
    }
}

impl Clone for CosmicBgEntry {
    fn clone(&self) -> (copy: Self)
        ensures
            copy@ == self@,
    {
        CosmicBgEntry {
            output: self.output.clone(),
            source: self.source.clone(),
            filter_by_theme: self.filter_by_theme,
            rotation_frequency: self.rotation_frequency,
            filter_method: self.filter_method,
            scaling_mode: self.scaling_mode,
            sampling_method: self.sampling_method,
        }
    }
}

/// The whole configuration: the backgrounds in the order in which they were
/// written down.
#[derive(Debug)]
pub struct CosmicBgConfig {
    /// The configured backgrounds.
    pub backgrounds: Vec<CosmicBgEntry>,
}

/// A `CosmicBgConfig` as plain values.
pub struct ConfigView {
    pub backgrounds: Seq<EntryView>,
}

impl View for CosmicBgConfig {
    type V = ConfigView;

    open spec fn view(&self) -> ConfigView {
        ConfigView { backgrounds: self.backgrounds@.map_values(|entry: CosmicBgEntry| entry@) }
    }
}

impl Clone for CosmicBgConfig {
    fn clone(&self) -> (copy: Self)
        ensures
            copy@ == self@,
    {
        let mut backgrounds: Vec<CosmicBgEntry> = Vec::new();
        let mut i: usize = 0;
        while i < self.backgrounds.len()
            invariant
                i <= self.backgrounds.len(),
                backgrounds.len() == i,
                forall|j: int| 0 <= j < i ==> (#[trigger] backgrounds[j])@ == self.backgrounds[j]@,
            decreases self.backgrounds.len() - i,
        {
            backgrounds.push(self.backgrounds[i].clone());
            i += 1;
        }
        let copy = CosmicBgConfig { backgrounds };
        assert(copy@.backgrounds =~= self@.backgrounds);
        copy
    }
}

} // verus!
