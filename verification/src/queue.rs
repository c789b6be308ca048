//! The queue of transforms that the builder calls fill.
use crate::fast_resize::FastResizeOptions;
use crate::fast_resize::ResizeFit;
use crate::orientation::Orientation;
use crate::transformer::ResizeFilterType;
use vstd::prelude::*;

verus! {

/// What a standard resize is asked for.
#[derive(Clone, Copy, Debug, PartialEq, Eq, Structural)]
pub struct ResizeOptions {
    pub width: u32,
    pub height: Option<u32>,
    pub filter: Option<ResizeFilterType>,
    pub fit: Option<ResizeFit>,
}

/// The samples that an AVIF decoder read from a file, with the size of the
/// image.
pub struct AvifPixels {
    pub width: u32,
    pub height: u32,
    pub samples: Vec<u8>,
}

/// What an `AvifPixels` holds.
pub ghost struct AvifPixelsView {
    pub width: u32,
    pub height: u32,
    pub samples: Seq<u8>,
}

impl View for AvifPixels {
    type V = AvifPixelsView;

    open spec fn view(&self) -> AvifPixelsView {
        AvifPixelsView { width: self.width, height: self.height, samples: self.samples@ }
    }
}

/// An image to lay over the working image, with the place of its corner.
pub struct Overlay {
    /// The encoded image.
    pub source: Vec<u8>,
    pub x: i64,
    pub y: i64,
    /// What an AVIF decoder read from the encoded image, for an image in
    /// AVIF.
    pub avif: Option<AvifPixels>,
}

/// What an `Overlay` holds.
pub ghost struct OverlayView {
    pub source: Seq<u8>,
    pub x: i64,
    pub y: i64,
    pub avif: Option<AvifPixelsView>,
}

impl View for Overlay {
    type V = OverlayView;

    open spec fn view(&self) -> OverlayView {
        OverlayView {
            source: self.source@,
            x: self.x,
            y: self.y,
            avif: match self.avif {
                Some(pixels) => Some(pixels@),
                None => None,
            },
        }
    }
}

/// A filter whose parameters are real numbers. A real number is held as the
/// bit pattern of its double-precision form.
#[derive(Clone, Copy, Debug, PartialEq, Eq)]
pub enum FilterRequest {
    /// Adjust the contrast by the amount.
    Contrast(u64),
    /// Gaussian blur with the sigma.
    Blur(u64),
    /// Unsharp mask with the sigma and the threshold.
    Unsharpen(u64, i32),
    /// Convolution with the nine coefficients of a 3x3 kernel, row by row.
    Filter3x3([u64; 9]),
}

/// The transforms that were asked for. Each has one place in the order in
/// which they are applied, whatever the order of the calls that set them.
pub struct ImageTransformArgs {
    pub grayscale: bool,
    pub invert: bool,
    pub rotate: bool,
    pub resize: Option<ResizeOptions>,
    pub fast_resize: Option<FastResizeOptions>,
    pub contrast: Option<u64>,
    pub blur: Option<u64>,
    pub unsharpen: Option<(u64, i32)>,
    pub filter3x3: Option<[u64; 9]>,
    pub brightness: Option<i32>,
    pub huerotate: Option<i32>,
    pub orientation: Option<Orientation>,
    pub crop: Option<(u32, u32, u32, u32)>,
    pub overlay: Vec<Overlay>,
}

/// What an `ImageTransformArgs` holds.
pub ghost struct QueueView {
    pub grayscale: bool,
    pub invert: bool,
    pub rotate: bool,
    pub resize: Option<ResizeOptions>,
    pub fast_resize: Option<FastResizeOptions>,
    pub contrast: Option<u64>,
    pub blur: Option<u64>,
    pub unsharpen: Option<(u64, i32)>,
    pub filter3x3: Option<[u64; 9]>,
    pub brightness: Option<i32>,
    pub huerotate: Option<i32>,
    pub orientation: Option<Orientation>,
    pub crop: Option<(u32, u32, u32, u32)>,
    pub overlay: Seq<OverlayView>,
}

/// What a list of overlays holds.
pub open spec fn overlays_view(overlays: Seq<Overlay>) -> Seq<OverlayView> {
    overlays.map_values(|o: Overlay| o@)
}

/// The queue in which nothing is asked for.
pub open spec fn empty_queue() -> QueueView {
    QueueView {
        grayscale: false,
        invert: false,
        rotate: false,
        resize: None,
        fast_resize: None,
        contrast: None,
        blur: None,
        unsharpen: None,
        filter3x3: None,
        brightness: None,
        huerotate: None,
        orientation: None,
        crop: None,
        overlay: Seq::empty(),
    }
}

impl View for ImageTransformArgs {
    type V = QueueView;

    open spec fn view(&self) -> QueueView {
        QueueView {
            grayscale: self.grayscale,
            invert: self.invert,
            rotate: self.rotate,
            resize: self.resize,
            fast_resize: self.fast_resize,
            contrast: self.contrast,
            blur: self.blur,
            unsharpen: self.unsharpen,
            filter3x3: self.filter3x3,
            brightness: self.brightness,
            huerotate: self.huerotate,
            orientation: self.orientation,
            crop: self.crop,
            overlay: overlays_view(self.overlay@),
        }
    }
}

impl Default for ImageTransformArgs {
    fn default() -> (out: Self)
        ensures
            out@ == empty_queue(),
    {
        let out = ImageTransformArgs {
            grayscale: false,
            invert: false,
            rotate: false,
            resize: None,
            fast_resize: None,
            contrast: None,
            blur: None,
            unsharpen: None,
            filter3x3: None,
            brightness: None,
            huerotate: None,
            orientation: None,
            crop: None,
            overlay: Vec::new(),
        };
        assert(overlays_view(out.overlay@) == Seq::<OverlayView>::empty());
        out
    }
}

impl ImageTransformArgs {
    /// A copy of the queue.
    pub fn duplicate(&self) -> (out: Self)
        ensures
            out@ == self@,
    {
        let mut overlay: Vec<Overlay> = Vec::new();
        let mut i: usize = 0;
        while i < self.overlay.len()
            invariant
                i <= self.overlay.len(),
                overlays_view(overlay@) == overlays_view(self.overlay@).take(i as int),
            decreases self.overlay.len() - i,
        {
            let source = self.overlay[i].source.clone();
            assert(source@ == self.overlay[i as int].source@);
            let avif = match &self.overlay[i].avif {
                Some(pixels) => {
                    let samples = pixels.samples.clone();
                    assert(samples@ == pixels.samples@);
                    Some(AvifPixels { width: pixels.width, height: pixels.height, samples })
                },
                None => None,
            };
            let ghost before = overlay@;
            let copy = Overlay { source, x: self.overlay[i].x, y: self.overlay[i].y, avif };
            assert(copy@ == self.overlay[i as int]@);
            overlay.push(copy);
            assert(overlays_view(overlay@) =~= overlays_view(before).push(copy@));
            assert(overlays_view(self.overlay@).take(i + 1) =~= overlays_view(self.overlay@).take(i as int).push(
                self.overlay[i as int]@,
            ));
            i += 1;
        }
        assert(overlays_view(self.overlay@).take(self.overlay.len() as int) == overlays_view(self.overlay@));
        ImageTransformArgs {
            grayscale: self.grayscale,
            invert: self.invert,
            rotate: self.rotate,
            resize: self.resize,
            fast_resize: self.fast_resize,
            contrast: self.contrast,
            blur: self.blur,
            unsharpen: self.unsharpen,
            filter3x3: self.filter3x3,
            brightness: self.brightness,
            huerotate: self.huerotate,
            orientation: self.orientation,
            crop: self.crop,
            overlay,
        }
    }
}

/// The places that the filters with real-number parameters have in the
/// order of the transforms.
#[derive(Clone, Copy, Debug, PartialEq, Eq, Structural)]
pub enum FilterSlot {
    Contrast,
    Blur,
    Unsharpen,
    Filter3x3,
}

impl FilterSlot {
    /// The place of the slot among the four, from zero.
    pub open spec fn index(self) -> int {
        match self {
            FilterSlot::Contrast => 0,
            FilterSlot::Blur => 1,
            FilterSlot::Unsharpen => 2,
            FilterSlot::Filter3x3 => 3,
        }
    }
}

/// The filter that the queue asks for in a slot.
pub open spec fn request_in(q: QueueView, slot: FilterSlot) -> Option<FilterRequest> {
    match slot {
        FilterSlot::Contrast => match q.contrast {
            Some(c) => Some(FilterRequest::Contrast(c)),
            None => None,
        },
        FilterSlot::Blur => match q.blur {
            Some(s) => Some(FilterRequest::Blur(s)),
            None => None,
        },
        FilterSlot::Unsharpen => match q.unsharpen {
            Some(u) => Some(FilterRequest::Unsharpen(u.0, u.1)),
            None => None,
        },
        FilterSlot::Filter3x3 => match q.filter3x3 {
            Some(k) => Some(FilterRequest::Filter3x3(k)),
            None => None,
        },
    }
}

/// The first slot at or after place `from` in which the queue asks for a
/// filter, with that filter.
pub open spec fn next_request(q: QueueView, from: int) -> Option<(FilterSlot, FilterRequest)> {
    if from <= 0 && q.contrast is Some {
        Some((FilterSlot::Contrast, request_in(q, FilterSlot::Contrast).unwrap()))
    } else if from <= 1 && q.blur is Some {
        Some((FilterSlot::Blur, request_in(q, FilterSlot::Blur).unwrap()))
    } else if from <= 2 && q.unsharpen is Some {
        Some((FilterSlot::Unsharpen, request_in(q, FilterSlot::Unsharpen).unwrap()))
    } else if from <= 3 && q.filter3x3 is Some {
        Some((FilterSlot::Filter3x3, request_in(q, FilterSlot::Filter3x3).unwrap()))
    } else {
        None
    }
}

impl ImageTransformArgs {
    /// The next filter with real-number parameters that is asked for, from
    /// place `from` on.
    pub fn next_filter(&self, from: u8) -> (out: Option<(FilterSlot, FilterRequest)>)
        ensures
            out == next_request(self@, from as int),
    {
        if from <= 0 && self.contrast.is_some() {
            Some((FilterSlot::Contrast, FilterRequest::Contrast(self.contrast.unwrap())))
        } else if from <= 1 && self.blur.is_some() {
            Some((FilterSlot::Blur, FilterRequest::Blur(self.blur.unwrap())))
        } else if from <= 2 && self.unsharpen.is_some() {
            let u = self.unsharpen.unwrap();
            Some((FilterSlot::Unsharpen, FilterRequest::Unsharpen(u.0, u.1)))
        } else if from <= 3 && self.filter3x3.is_some() {
            Some((FilterSlot::Filter3x3, FilterRequest::Filter3x3(self.filter3x3.unwrap())))
        } else {
            None
        }
    }
}

/// The filters come in the order of their slots: the one that follows a slot
/// lies behind it, and no filter that is asked for between the two is passed
/// over.
pub proof fn lemma_filters_in_order(q: QueueView, from: int, slot: FilterSlot)
    requires
        0 <= from,
    ensures
        next_request(q, from) matches Some(found) ==> {
            &&& found.0.index() >= from
            &&& request_in(q, found.0) == Some(found.1)
            &&& (from <= slot.index() < found.0.index() ==> request_in(q, slot) is None)
        },
        next_request(q, from) is None && from <= slot.index() ==> request_in(q, slot) is None,
{
}

} // verus!
