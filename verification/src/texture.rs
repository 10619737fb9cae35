use vstd::prelude::*;
use vstd::string::*;
use crate::error::KerkenezError;

verus! {

/// Handle of a GPU texture: its position in the renderer's texture list.
#[derive(Clone, Copy, PartialEq, Eq, Structural, Debug, Hash)]
pub struct TextureId(pub usize);

/// What the catalog knows of each texture, by position: the file it was
/// loaded from, or nothing for the built-in white texture.
pub type CatalogView = Seq<Option<Seq<char>>>;

/// Position of the texture loaded from `path`, if any.
pub open spec fn texture_of(entries: CatalogView, path: Seq<char>) -> Option<int> {
    if exists|i: int| 0 <= i < entries.len() && entries[i] == Some(path) {
        Some(choose|i: int| 0 <= i < entries.len() && entries[i] == Some(path))
    } else {
        None
    }
}

/// The catalog is well formed: slot 0 is the white texture and no file
/// is loaded twice.
pub open spec fn catalog_wf(entries: CatalogView) -> bool {
    &&& entries.len() > 0
    &&& entries[0] is None
    &&& forall|i: int, j: int|
        0 <= i < entries.len() && 0 <= j < entries.len() && i != j && entries[i] is Some
            ==> #[trigger] entries[i] != #[trigger] entries[j]
}

/// The texture that loading `path` yields, and whether it is new (so
/// its pixels must be read and uploaded).
pub open spec fn load_result(entries: CatalogView, path: Seq<char>) -> (int, bool) {
    match texture_of(entries, path) {
        Some(i) => (i, false),
        None => (entries.len() as int, true),
    }
}

/// The catalog after loading `path`.
pub open spec fn after_load(entries: CatalogView, path: Seq<char>) -> CatalogView {
    match texture_of(entries, path) {
        Some(_) => entries,
        None => entries.push(Some(path)),
    }
}

/// Deduplicating index of the textures a renderer holds: texture `i`
/// of the renderer was loaded from the file recorded at position `i`.
pub struct TextureCatalog {
    entries: Vec<Option<String>>,
}

impl View for TextureCatalog {
    type V = CatalogView;

    closed spec fn view(&self) -> CatalogView {
        self.entries@.map_values(|e: Option<String>| match e {
            Some(s) => Some(s@),
            None => None,
        })
    }
}

impl TextureCatalog {
    #[verifier::type_invariant]
    spec fn well_formed(self) -> bool {
        catalog_wf(self@)
    }
}

proof fn lemma_unique_position(entries: CatalogView, path: Seq<char>, i: int)
    requires
        catalog_wf(entries),
        0 <= i < entries.len(),
        entries[i] == Some(path),
    ensures
        texture_of(entries, path) == Some(i),
{
    let k = choose|k: int| 0 <= k < entries.len() && entries[k] == Some(path);
    assert(entries[k] == entries[i]);
}

impl TextureCatalog {
    /// A catalog holding only the white texture, at position 0.
    pub fn new() -> (c: Self)
        ensures
            c@ == seq![Option::<Seq<char>>::None],
            catalog_wf(c@),
    {
        let mut entries: Vec<Option<String>> = Vec::new();
        entries.push(None);
        let c = TextureCatalog { entries };
        assert(c@ =~= seq![Option::<Seq<char>>::None]);
        c
    }

    /// The built-in white texture used by materials without a file.
    pub fn white_texture_id(&self) -> (id: TextureId)
        ensures
            id == TextureId(0),
            catalog_wf(self@),
    {
        proof {
            use_type_invariant(self);
        }
        TextureId(0)
    }

    /// Number of textures, the white one included.
    pub fn len(&self) -> (n: usize)
        ensures
            n == self@.len(),
            catalog_wf(self@),
    {
        proof {
            use_type_invariant(self);
        }
        self.entries.len()
    }

    /// The texture loaded from `path`, if there is one.
    pub fn lookup(&self, path: &str) -> (r: Option<TextureId>)
        ensures
            catalog_wf(self@),
            match texture_of(self@, path@) {
                Some(i) => r == Some(TextureId(i as usize)),
                None => r is None,
            },
    {
        proof {
            use_type_invariant(self);
        }
        let wanted = String::from_str(path);
        let mut i: usize = 0;
        while i < self.entries.len()
            invariant
                wanted@ == path@,
                i <= self.entries@.len(),
                catalog_wf(self@),
                forall|k: int| 0 <= k < i ==> self@[k] != Some(path@),
            decreases self.entries.len() - i,
        {
            match &self.entries[i] {
                Some(p) => {
                    if *p == wanted {
                        proof {
                            assert(self@[i as int] == Some(path@));
                            lemma_unique_position(self@, path@, i as int);
                        }
                        return Some(TextureId(i));
                    }
                },
                None => {},
            }
            assert(self@[i as int] != Some(path@));
            i = i + 1;
        }
        None
    }

    /// Looks `path` up and, if it was never loaded, records it as the
    /// next texture. Returns the texture's handle and whether it is new,
    /// in which case the caller reads the file and appends the texture.
    pub fn load_texture(&mut self, path: &str) -> (r: (TextureId, bool))
        requires
            old(self)@.len() < usize::MAX,
        ensures
            catalog_wf(final(self)@),
            final(self)@ == after_load(old(self)@, path@),
            r.0.0 == load_result(old(self)@, path@).0,
            r.1 == load_result(old(self)@, path@).1,
    {
        proof {
            use_type_invariant(&*self);
        }
        match self.lookup(path) {
            Some(id) => (id, false),
            None => {
                let id = TextureId(self.entries.len());
                let ghost before = self@;
                proof {
                    lemma_load_keeps_wf(before, path@);
                }
                let mut taken = TextureCatalog::new();
                std::mem::swap(&mut taken, self);
                let TextureCatalog { mut entries } = taken;
                entries.push(Some(String::from_str(path)));
                assert(entries@.map_values(|e: Option<String>| match e {
                    Some(s) => Some(s@),
                    None => None,
                }) =~= before.push(Some(path@)));
                *self = TextureCatalog { entries };
                (id, true)
            },
        }
    }

    /// The texture a newly registered material gets: the one loaded from
    /// its file if it names one, else the white texture.
    pub fn material_texture(&mut self, texture_path: Option<&str>) -> (r: (TextureId, bool))
        requires
            old(self)@.len() < usize::MAX,
        ensures
            catalog_wf(final(self)@),
            match texture_path {
                Some(p) => {
                    &&& final(self)@ == after_load(old(self)@, p@)
                    &&& r.0.0 == load_result(old(self)@, p@).0
                    &&& r.1 == load_result(old(self)@, p@).1
                },
                None => final(self)@ == old(self)@ && r == (TextureId(0), false),
            },
    {
        proof {
            use_type_invariant(&*self);
        }
        match texture_path {
            Some(p) => self.load_texture(p),
            None => (TextureId(0), false),
        }
    }
}

/// Loading a file twice yields the same texture, and the second time
/// nothing new is loaded.
pub proof fn law_load_is_deduplicated(entries: CatalogView, path: Seq<char>)
    requires
        catalog_wf(entries),
    ensures
        catalog_wf(after_load(entries, path)),
        load_result(after_load(entries, path), path) == (load_result(entries, path).0, false),
        after_load(after_load(entries, path), path) == after_load(entries, path),
{
    lemma_load_keeps_wf(entries, path);
    let e2 = after_load(entries, path);
    let i = load_result(entries, path).0;
    if texture_of(entries, path) is None {
        assert(e2[i] == Some(path));
    } else {
        let k = choose|k: int| 0 <= k < entries.len() && entries[k] == Some(path);
        assert(e2[k] == Some(path));
    }
    lemma_unique_position(e2, path, i);
}

/// Loading different files yields different textures, none of them the
/// white texture, each naming a texture that exists.
pub proof fn law_distinct_files_distinct_textures(entries: CatalogView, p: Seq<char>, q: Seq<char>)
    requires
        catalog_wf(entries),
        p != q,
    ensures
        load_result(entries, p).0 != 0,
        0 < load_result(entries, p).0 < after_load(entries, p).len(),
        load_result(after_load(entries, p), q).0 != load_result(entries, p).0,
{
    lemma_load_keeps_wf(entries, p);
    let e2 = after_load(entries, p);
    let i = load_result(entries, p).0;
    if texture_of(entries, p) is Some {
        let k = choose|k: int| 0 <= k < entries.len() && entries[k] == Some(p);
        assert(entries[k] != entries[0]);
    }
    assert(e2[i] == Some(p));
    if texture_of(e2, q) is Some {
        let k = choose|k: int| 0 <= k < e2.len() && e2[k] == Some(q);
        assert(e2[k] != e2[i]);
    }
}

/// Loading the files `paths` one after another: the catalog afterwards
/// and the texture each load yields, in order.
pub open spec fn after_loads(entries: CatalogView, paths: Seq<Seq<char>>) -> (CatalogView, Seq<int>)
    decreases paths.len(),
{
    if paths.len() == 0 {
        (entries, Seq::empty())
    } else {
        let (e1, ids) = after_loads(entries, paths.drop_last());
        (after_load(e1, paths.last()), ids.push(load_result(e1, paths.last()).0))
    }
}

/// Over any number of loads, each file is loaded at most once: every
/// load yields a texture, not the white one, that holds its file; two
/// loads yield the same texture exactly when they name the same file;
/// the textures already there stay where they were; and every texture
/// added holds one of the files named, so at most one texture is added
/// per load.
pub proof fn law_loads_deduplicated(entries: CatalogView, paths: Seq<Seq<char>>)
    requires
        catalog_wf(entries),
    ensures
        ({
            let (e2, ids) = after_loads(entries, paths);
            &&& catalog_wf(e2)
            &&& ids.len() == paths.len()
            &&& forall|i: int| 0 <= i < ids.len() ==> 0 < #[trigger] ids[i] < e2.len()
                && e2[ids[i]] == Some(paths[i])
            &&& forall|i: int, j: int| 0 <= i < ids.len() && 0 <= j < ids.len()
                ==> (#[trigger] ids[i] == #[trigger] ids[j] <==> paths[i] == paths[j])
            &&& entries.len() <= e2.len() <= entries.len() + paths.len()
            &&& forall|k: int| 0 <= k < entries.len() ==> #[trigger] e2[k] == entries[k]
            &&& forall|k: int| entries.len() <= k < e2.len()
                ==> exists|i: int| 0 <= i < paths.len() && #[trigger] e2[k] == Some(paths[i])
        }),
    decreases paths.len(),
{
    if paths.len() > 0 {
        let n = paths.len() - 1;
        let front = paths.drop_last();
        let last = paths.last();
        law_loads_deduplicated(entries, front);
        let (e1, ids1) = after_loads(entries, front);
        lemma_load_keeps_wf(e1, last);
        let (e2, ids) = after_loads(entries, paths);
        let r = load_result(e1, last).0;
        assert(e2[r] == Some(last));
        assert(r != 0);
        assert forall|i: int| 0 <= i < ids.len() implies 0 < #[trigger] ids[i] < e2.len()
            && e2[ids[i]] == Some(paths[i]) by {
            if i < n {
                assert(ids[i] == ids1[i]);
                assert(front[i] == paths[i]);
                assert(e2[ids1[i]] == e1[ids1[i]]);
            }
        }
        assert forall|i: int, j: int| 0 <= i < ids.len() && 0 <= j < ids.len()
            implies (#[trigger] ids[i] == #[trigger] ids[j] <==> paths[i] == paths[j]) by {
            assert(e2[ids[i]] == Some(paths[i]));
            assert(e2[ids[j]] == Some(paths[j]));
            if paths[i] == paths[j] && ids[i] != ids[j] {
                assert(e2[ids[i]] != e2[ids[j]]);
            }
        }
        assert forall|k: int| 0 <= k < entries.len() implies #[trigger] e2[k] == entries[k] by {
            assert(e2[k] == e1[k]);
        }
        assert forall|k: int| entries.len() <= k < e2.len()
            implies exists|i: int| 0 <= i < paths.len() && #[trigger] e2[k] == Some(paths[i]) by {
            if k < e1.len() {
                assert(e2[k] == e1[k]);
                let i = choose|i: int| 0 <= i < front.len() && #[trigger] e1[k] == Some(front[i]);
                assert(front[i] == paths[i]);
            } else {
                assert(texture_of(e1, last) is None);
                assert(e2[k] == Some(paths[n]));
            }
        }
    }
}

proof fn lemma_load_keeps_wf(entries: CatalogView, path: Seq<char>)
    requires
        catalog_wf(entries),
    ensures
        catalog_wf(after_load(entries, path)),
        after_load(entries, path).len() >= entries.len(),
        forall|k: int| 0 <= k < entries.len() ==> #[trigger] after_load(entries, path)[k] == entries[k],
        0 <= load_result(entries, path).0 < after_load(entries, path).len(),
        after_load(entries, path)[load_result(entries, path).0] == Some(path),
{
    if texture_of(entries, path) is None {
        let e2 = entries.push(Some(path));
        assert forall|i: int, j: int|
            0 <= i < e2.len() && 0 <= j < e2.len() && i != j && e2[i] is Some
                implies #[trigger] e2[i] != #[trigger] e2[j] by {
            if i == entries.len() && j < entries.len() {
                assert(entries[j] != Some(path));
            } else if j == entries.len() && i < entries.len() {
                assert(entries[i] != Some(path));
            }
        }
    } else {
        let k = choose|k: int| 0 <= k < entries.len() && entries[k] == Some(path);
        assert(entries[k] == Some(path));
    }
}

/// What the `image` crate decodes from a file's bytes, given the file's
/// extension: width, height and RGBA8 pixels row by row from the top,
/// or nothing when the extension names no known format or the bytes do
/// not decode.
pub uninterp spec fn decoded_rgba8(bytes: Seq<u8>, extension: Seq<char>) -> Option<(u32, u32, Seq<u8>)>;

/// Decodes an image file with `image::load_from_memory_with_format`,
/// the format being `image::ImageFormat::from_extension(extension)`,
/// and converts it with `DynamicImage::into_rgba8`. Trusted: the result
/// is `decoded_rgba8(bytes, extension)`, and a decoded pixel buffer
/// holds at least `4 * width * height` bytes (an `ImageBuffer` is only
/// ever built over a buffer that large). What the decoders produce is
/// left unsaid.
#[verifier::external_body]
fn decode_rgba8(bytes: &[u8], extension: &str) -> (r: Option<(u32, u32, Vec<u8>)>)
    ensures
        r is Some <==> decoded_rgba8(bytes@, extension@) is Some,
        r matches Some((w, h, px)) ==> decoded_rgba8(bytes@, extension@) == Some((w, h, px@))
            && px@.len() >= 4 * (w as int) * (h as int),
{
    let format = image::ImageFormat::from_extension(extension)?;
    let rgba = image::load_from_memory_with_format(bytes, format).ok()?.into_rgba8();
    let (w, h) = rgba.dimensions();
    Some((w, h, rgba.into_raw()))
}

/// The image with its rows in reverse order (bottom row first), rows
/// being `4 * width` bytes of RGBA8 pixels, as OpenGL expects texture
/// rows.
pub open spec fn flipped_rows(px: Seq<u8>, width: nat, height: nat) -> Seq<u8> {
    let row = 4 * width;
    Seq::new(row * height, |i: int| px[(height - 1 - i / (row as int)) * row + i % (row as int)])
}

proof fn lemma_row_position(row: int, r: int, c: int)
    requires
        row > 0,
        0 <= c < row,
    ensures
        (r * row + c) / row == r,
        (r * row + c) % row == c,
{
    vstd::arithmetic::div_mod::lemma_fundamental_div_mod_converse(r * row + c, row, r, c);
}

/// Reverses the row order of an RGBA8 image.
pub fn flip_rows(px: &Vec<u8>, width: u32, height: u32) -> (out: Vec<u8>)
    requires
        px@.len() >= 4 * (width as int) * (height as int),
    ensures
        out@ == flipped_rows(px@, width as nat, height as nat),
{
    let mut out: Vec<u8> = Vec::new();
    if width == 0 || height == 0 {
        assert(4 * (width as nat) * (height as nat) == 0) by (nonlinear_arith)
            requires width == 0 || height == 0;
        assert(out@ =~= flipped_rows(px@, width as nat, height as nat));
        return out;
    }
    let len: usize = px.len();
    let ghost w = width as int;
    let ghost h = height as int;
    assert(4 * w <= 4 * w * h) by (nonlinear_arith) requires h >= 1, w >= 0;
    assert((h - 1) * (4 * w) + 4 * w == 4 * w * h) by (nonlinear_arith);
    let row: usize = 4 * (width as usize);
    let rows: usize = height as usize;
    let mut r: usize = 0;
    while r < rows
        invariant
            row == 4 * w,
            w > 0,
            rows == h,
            h >= 1,
            r <= rows,
            len == px@.len(),
            px@.len() >= 4 * w * h,
            (h - 1) * (4 * w) + 4 * w == 4 * w * h,
            out@.len() == r * row,
            forall|i: int| 0 <= i < out@.len() ==> #[trigger] out@[i]
                == px@[(h - 1 - i / (row as int)) * row + i % (row as int)],
        decreases rows - r,
    {
        assert((h - 1 - r) * row + row <= 4 * w * h) by (nonlinear_arith)
            requires r >= 0, r < h, (h - 1) * (4 * w) + 4 * w == 4 * w * h, row == 4 * w, w > 0;
        assert((h - 1 - r) * row >= 0) by (nonlinear_arith) requires r < h, row >= 0;
        let src: usize = (rows - 1 - r) * row;
        let mut c: usize = 0;
        while c < row
            invariant
                row == 4 * w,
                w > 0,
                rows == h,
                r < rows,
                c <= row,
                len == px@.len(),
                px@.len() >= 4 * w * h,
                src == (h - 1 - r) * row,
                (h - 1 - r) * row + row <= 4 * w * h,
                out@.len() == r * row + c,
                forall|i: int| 0 <= i < out@.len() ==> #[trigger] out@[i]
                    == px@[(h - 1 - i / (row as int)) * row + i % (row as int)],
            decreases row - c,
        {
            proof {
                lemma_row_position(row as int, r as int, c as int);
            }
            out.push(px[src + c]);
            c = c + 1;
        }
        assert(r * row + row == (r + 1) * row) by (nonlinear_arith);
        r = r + 1;
    }
    assert(rows * row == 4 * w * h) by (nonlinear_arith) requires rows == h, row == 4 * w;
    assert(out@ =~= flipped_rows(px@, width as nat, height as nat));
    out
}

/// The pixels to upload for an image file's contents: `Err` with a
/// texture error exactly when the file does not decode; otherwise the
/// decoded width and height and the pixels with the bottom row first.
pub fn texture_pixels(bytes: &[u8], extension: &str) -> (r: Result<(u32, u32, Vec<u8>), KerkenezError>)
    ensures
        decoded_rgba8(bytes@, extension@) is None ==> (r matches Err(KerkenezError::TextureLoadError(m))
            && m@ == "image could not be decoded"@),
        decoded_rgba8(bytes@, extension@) matches Some((w, h, px)) ==> (r matches Ok((w2, h2, out))
            && w2 == w && h2 == h && out@ == flipped_rows(px, w as nat, h as nat)),
{
    match decode_rgba8(bytes, extension) {
        None => Err(KerkenezError::TextureLoadError(String::from_str("image could not be decoded"))),
        Some((w, h, px)) => {
            let out = flip_rows(&px, w, h);
            Ok((w, h, out))
        },
    }
}

} // verus!
