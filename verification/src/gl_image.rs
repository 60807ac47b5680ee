use vstd::prelude::*;
use crate::device::{
    gl_red, gl_rg, gl_rgb, gl_rgba, gl_srgb, gl_srgb_alpha, RED, RG, RGB, RGBA, SRGB, SRGB_ALPHA,
};

verus! {

/// Decoded pixel data, rows stored one after another without padding.
pub struct GlImage {
    pub bytes: Vec<u8>,
    pub internal_format: u32,
    pub data_format: u32,
    pub width: i32,
    pub height: i32,
}

/// Bytes per pixel of a data format; 0 for a format that holds no pixels.
pub open spec fn pixel_size_of(data_format: u32) -> int {
    if data_format == RED {
        1
    } else if data_format == RG {
        2
    } else if data_format == RGB {
        3
    } else if data_format == RGBA {
        4
    } else {
        0
    }
}

/// The format of the pixel data of an image with the given number of
/// channels; 0 for a number that no format stands for.
pub open spec fn data_format_of(channels: u8) -> u32 {
    if channels == 1 {
        RED
    } else if channels == 2 {
        RG
    } else if channels == 3 {
        RGB
    } else if channels == 4 {
        RGBA
    } else {
        0
    }
}

/// The format in which the device stores an image with the given number
/// of channels: colour images in the sRGB colour space.
pub open spec fn internal_format_of(channels: u8) -> u32 {
    if channels == 1 {
        RED
    } else if channels == 2 {
        RG
    } else if channels == 3 {
        SRGB
    } else if channels == 4 {
        SRGB_ALPHA
    } else {
        0
    }
}

/// Number of faces of a cube.
pub const FACES: usize = 6;

/// Where face `face` of a cube lies in an image that shows the unfolded
/// cube as a cross, four faces wide and three high, each `side` pixels
/// square: positive and negative x, y, z in turn.
pub open spec fn face_offset(face: int, side: int) -> (int, int) {
    if face == 0 {
        (2 * side, side)
    } else if face == 1 {
        (0, side)
    } else if face == 2 {
        (side, 0)
    } else if face == 3 {
        (side, 2 * side)
    } else if face == 4 {
        (side, side)
    } else {
        (3 * side, side)
    }
}

impl GlImage {
    /// An image of decoded pixels, with the formats that its number of
    /// channels stands for; none for a number outside 1 to 4.
    pub fn from_decoded(bytes: Vec<u8>, width: i32, height: i32, channels: u8) -> (image: Option<
        GlImage,
    >)
        ensures
            match image {
                Some(img) => {
                    &&& 1 <= channels <= 4
                    &&& img.bytes == bytes
                    &&& img.width == width
                    &&& img.height == height
                    &&& img.data_format == data_format_of(channels)
                    &&& img.internal_format == internal_format_of(channels)
                },
                None => !(1 <= channels <= 4),
            },
    {
        let (internal_format, data_format) = if channels == 1 {
            (gl_red(), gl_red())
        } else if channels == 2 {
            (gl_rg(), gl_rg())
        } else if channels == 3 {
            (gl_srgb(), gl_rgb())
        } else if channels == 4 {
            (gl_srgb_alpha(), gl_rgba())
        } else {
            return None;
        };
        Some(GlImage { bytes, internal_format, data_format, width, height })
    }

    /// Side of a face of the cube that the image shows unfolded.
    pub open spec fn face_side(&self) -> int {
        self.height / 3
    }

    /// The image holds every face of an unfolded cube.
    pub open spec fn holds_cross(&self) -> bool {
        &&& self.height >= 0
        &&& forall|face: int|
            0 <= face < FACES ==> self.holds_region(
                (#[trigger] face_offset(face, self.face_side())).0,
                face_offset(face, self.face_side()).1,
                self.face_side(),
                self.face_side(),
            )
    }

    /// Whether `face` is face number `number` of the cube that the image shows unfolded.
    pub open spec fn is_face(&self, number: int, face: GlImage) -> bool {
        &&& face.width == self.face_side()
        &&& face.height == self.face_side()
        &&& face.data_format == self.data_format
        &&& face.internal_format == self.internal_format
        &&& face.bytes@ == self.region(
            face_offset(number, self.face_side()).0,
            face_offset(number, self.face_side()).1,
            self.face_side(),
            self.face_side(),
        )
    }

    /// Cuts the image of an unfolded cube into its six faces.
    pub fn cube_faces(&self) -> (faces: Vec<GlImage>)
        requires
            self.holds_cross(),
        ensures
            faces@.len() == FACES,
            forall|i: int| 0 <= i < FACES ==> self.is_face(i, #[trigger] faces@[i]),
    {
        let side: i32 = self.height / 3;
        let mut faces: Vec<GlImage> = Vec::new();
        let mut i: usize = 0;
        while i < FACES
            invariant
                i <= FACES,
                self.holds_cross(),
                side == self.face_side(),
                0 <= 3 * side <= i32::MAX,
                faces@.len() == i,
                forall|k: int| 0 <= k < i ==> self.is_face(k, #[trigger] faces@[k]),
            decreases FACES - i,
        {
            let (x, y): (i32, i32) = if i == 0 {
                (2 * side, side)
            } else if i == 1 {
                (0, side)
            } else if i == 2 {
                (side, 0)
            } else if i == 3 {
                (side, 2 * side)
            } else if i == 4 {
                (side, side)
            } else {
                (3 * side, side)
            };
            assert(face_offset(i as int, side as int) == (x as int, y as int));
            let bytes = self.sub_image(x, y, side, side);
            faces.push(
                GlImage {
                    bytes,
                    internal_format: self.internal_format,
                    data_format: self.data_format,
                    width: side,
                    height: side,
                },
            );
            i += 1;
        }
        faces
    }

    /// Bytes per pixel of this image.
    pub open spec fn pixel_size(&self) -> int {
        pixel_size_of(self.data_format)
    }

    /// Position in `bytes` of the first byte of pixel `(x, y)`.
    pub open spec fn byte_at(&self, x: int, y: int) -> int {
        (y * self.width + x) * self.pixel_size()
    }

    /// The `width` pixels of row `y` from column `offset_x` on lie inside the
    /// stored bytes.
    pub open spec fn holds_row(&self, offset_x: int, y: int, width: int) -> bool {
        &&& 0 <= self.byte_at(offset_x, y)
        &&& self.byte_at(offset_x, y) + width * self.pixel_size() <= self.bytes@.len()
    }

    /// The image has a pixel format, and every row of the rectangle of
    /// `width` by `height` pixels at `(offset_x, offset_y)` lies inside the
    /// stored bytes. Rows start at equal distances, so the first and the
    /// last decide for all. A rectangle without rows asks for nothing more
    /// than the pixel format.
    pub open spec fn holds_region(&self, offset_x: int, offset_y: int, width: int, height: int) -> bool {
        &&& self.pixel_size() > 0
        &&& height > 0 ==> {
            &&& width >= 0
            &&& self.holds_row(offset_x, offset_y, width)
            &&& self.holds_row(offset_x, offset_y + height - 1, width)
        }
    }

    /// The bytes of `width` pixels of row `y`, starting at column `offset_x`.
    pub open spec fn row(&self, offset_x: int, y: int, width: int) -> Seq<u8> {
        self.bytes@.subrange(
            self.byte_at(offset_x, y),
            self.byte_at(offset_x, y) + width * self.pixel_size(),
        )
    }

    /// The first `height` rows of the rectangle at `(offset_x, offset_y)`,
    /// each `width` pixels wide, one after another.
    pub open spec fn region(&self, offset_x: int, offset_y: int, width: int, height: int) -> Seq<u8>
        decreases height,
    {
        if height <= 0 {
            Seq::empty()
        } else {
            self.region(offset_x, offset_y, width, height - 1) + self.row(
                offset_x,
                offset_y + height - 1,
                width,
            )
        }
    }

    /// A row between two rows that lie inside the bytes lies inside them too.
    proof fn lemma_row_between(&self, offset_x: int, y1: int, y: int, y2: int, width: int)
        requires
            self.pixel_size() > 0,
            y1 <= y <= y2,
            self.holds_row(offset_x, y1, width),
            self.holds_row(offset_x, y2, width),
        ensures
            self.holds_row(offset_x, y, width),
    {
        let w = self.width as int;
        let px = self.pixel_size();
        if w >= 0 {
            assert(y1 * w <= y * w <= y2 * w) by (nonlinear_arith)
                requires
                    y1 <= y <= y2,
                    w >= 0,
            ;
            assert((y1 * w + offset_x) * px <= (y * w + offset_x) * px <= (y2 * w + offset_x) * px)
                by (nonlinear_arith)
                requires
                    y1 * w <= y * w <= y2 * w,
                    px > 0,
            ;
        } else {
            assert(y2 * w <= y * w <= y1 * w) by (nonlinear_arith)
                requires
                    y1 <= y <= y2,
                    w < 0,
            ;
            assert((y2 * w + offset_x) * px <= (y * w + offset_x) * px <= (y1 * w + offset_x) * px)
                by (nonlinear_arith)
                requires
                    y2 * w <= y * w <= y1 * w,
                    px > 0,
            ;
        }
    }

    /// Where a row starts, computed without loss.
    fn row_start(&self, offset_x: i32, y: i128, pixel_size: i128) -> (start: i128)
        requires
            -0x1_0000_0000 < y < 0x1_0000_0000,
            pixel_size == self.pixel_size(),
            1 <= pixel_size <= 4,
        ensures
            start == self.byte_at(offset_x as int, y as int),
            -0x8_0000_0000_0000_0000 <= start <= 0x8_0000_0000_0000_0000,
    {
        let image_width: i128 = self.width as i128;
        assert(-0x1_0000_0000 * 0x1_0000_0000 <= y * image_width <= 0x1_0000_0000 * 0x1_0000_0000)
            by (nonlinear_arith)
            requires
                -0x1_0000_0000 < y < 0x1_0000_0000,
                -0x1_0000_0000 < image_width < 0x1_0000_0000,
        ;
        let pixel: i128 = y * image_width + offset_x as i128;
        assert(-0x2_0000_0000_0000_0000 * 4 <= pixel * pixel_size <= 0x2_0000_0000_0000_0000 * 4)
            by (nonlinear_arith)
            requires
                -0x2_0000_0000_0000_0000 < pixel < 0x2_0000_0000_0000_0000,
                1 <= pixel_size <= 4,
        ;
        pixel * pixel_size
    }

    /// Bytes per pixel of this image's data format, if it is a pixel format.
    pub fn bytes_per_pixel(&self) -> (r: Option<u8>)
        ensures
            match r {
                Some(n) => n as int == self.pixel_size() && n > 0,
                None => self.pixel_size() == 0,
            },
    {
        if self.data_format == gl_red() {
            Some(1)
        } else if self.data_format == gl_rg() {
            Some(2)
        } else if self.data_format == gl_rgb() {
            Some(3)
        } else if self.data_format == gl_rgba() {
            Some(4)
        } else {
            None
        }
    }

    /// Decides whether the image holds a rectangle of pixels, so that it can be copied out.
    pub fn has_region(&self, offset_x: i32, offset_y: i32, width: i32, height: i32) -> (held: bool)
        ensures
            held == self.holds_region(offset_x as int, offset_y as int, width as int, height as int),
    {
        let pixel_size: i128 = match self.bytes_per_pixel() {
            Some(n) => n as i128,
            None => {
                return false;
            },
        };
        if height <= 0 {
            return true;
        }
        if width < 0 {
            return false;
        }
        assert(0 <= width * pixel_size < 0x1_0000_0000 * 4) by (nonlinear_arith)
            requires
                0 <= width < 0x1_0000_0000,
                1 <= pixel_size <= 4,
        ;
        let stride: i128 = width as i128 * pixel_size;
        let first: i128 = self.row_start(offset_x, offset_y as i128, pixel_size);
        let last: i128 = self.row_start(offset_x, offset_y as i128 + height as i128 - 1, pixel_size);
        let len: i128 = self.bytes.len() as i128;
        0 <= first && first + stride <= len && 0 <= last && last + stride <= len
    }

    /// Decides whether the image holds every face of an unfolded cube, so
    /// that it can be cut into them.
    pub fn is_cross(&self) -> (held: bool)
        ensures
            held == self.holds_cross(),
    {
        if self.height < 0 {
            return false;
        }
        let side: i32 = self.height / 3;
        let held = self.has_region(2 * side, side, side, side) && self.has_region(0, side, side, side)
            && self.has_region(side, 0, side, side) && self.has_region(side, 2 * side, side, side)
            && self.has_region(side, side, side, side) && self.has_region(3 * side, side, side, side);
        proof {
            let s = self.face_side();
            assert(face_offset(0, s) == (2 * s, s));
            assert(face_offset(1, s) == (0int, s));
            assert(face_offset(2, s) == (s, 0int));
            assert(face_offset(3, s) == (s, 2 * s));
            assert(face_offset(4, s) == (s, s));
            assert(face_offset(5, s) == (3 * s, s));
            if held {
                assert forall|face: int| 0 <= face < FACES implies self.holds_region(
                    (#[trigger] face_offset(face, s)).0,
                    face_offset(face, s).1,
                    s,
                    s,
                ) by {}
            }
        }
        held
    }

    /// Copies a rectangle of pixels out of the image, row by row. A
    /// rectangle without rows gives no bytes, wherever it lies.
    pub fn sub_image(&self, offset_x: i32, offset_y: i32, width: i32, height: i32) -> (result: Vec<u8>)
        requires
            self.holds_region(offset_x as int, offset_y as int, width as int, height as int),
        ensures
            result@ == self.region(offset_x as int, offset_y as int, width as int, height as int),
            height <= 0 ==> result@.len() == 0,
    {
        let mut result: Vec<u8> = Vec::new();
        if height <= 0 {
            return result;
        }
        let pixel_size: i128 = match self.bytes_per_pixel() {
            Some(n) => n as i128,
            None => 1,
        };
        assert(0 <= width * pixel_size < 0x1_0000_0000 * 4) by (nonlinear_arith)
            requires
                0 <= width < 0x1_0000_0000,
                1 <= pixel_size <= 4,
        ;
        let stride: i128 = width as i128 * pixel_size;
        let mut i: i32 = 0;
        while i < height
            invariant
                0 <= i <= height,
                self.holds_region(offset_x as int, offset_y as int, width as int, height as int),
                pixel_size as int == self.pixel_size(),
                1 <= pixel_size <= 4,
                stride as int == width * self.pixel_size(),
                0 <= stride,
                result@ == self.region(offset_x as int, offset_y as int, width as int, i as int),
            decreases height - i,
        {
            let y: i128 = offset_y as i128 + i as i128;
            proof {
                self.lemma_row_between(
                    offset_x as int,
                    offset_y as int,
                    y as int,
                    offset_y + height - 1,
                    width as int,
                );
            }
            let start: i128 = self.row_start(offset_x, y, pixel_size);
            let ghost before = result@;
            let mut j: i128 = 0;
            while j < stride
                invariant
                    0 <= j <= stride,
                    0 <= start,
                    start + stride <= self.bytes.len(),
                    result@ == before + self.bytes@.subrange(start as int, start + j),
                decreases stride - j,
            {
                let at: usize = (start + j) as usize;
                result.push(self.bytes[at]);
                j += 1;
            }
            i += 1;
        }
        result
    }
}

} // verus!
