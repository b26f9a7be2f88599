use vstd::prelude::*;

verus! {

/// The pixel whose four bytes start at `off`, blue-green-red-alpha turned into
/// red-green-blue-alpha; nothing where the buffer ends before the pixel does.
pub open spec fn rgba_at(data: Seq<u8>, off: int) -> Seq<u8> {
    if 0 <= off && off + 3 < data.len() {
        seq![data[off + 2], data[off + 1], data[off], data[off + 3]]
    } else {
        Seq::empty()
    }
}

/// The first `cols` pixels of row `row`, each row starting `stride` bytes after
/// the one before.
pub open spec fn row_rgba(data: Seq<u8>, row: int, cols: nat, stride: int) -> Seq<u8>
    decreases cols,
{
    if cols == 0 {
        Seq::empty()
    } else {
        row_rgba(data, row, (cols - 1) as nat, stride) + rgba_at(
            data,
            row * stride + (cols - 1) * 4,
        )
    }
}

/// The first `rows` rows of a `width`-pixel wide image.
pub open spec fn image_rgba(data: Seq<u8>, rows: nat, width: nat, stride: int) -> Seq<u8>
    decreases rows,
{
    if rows == 0 {
        Seq::empty()
    } else {
        image_rgba(data, (rows - 1) as nat, width, stride) + row_rgba(
            data,
            rows - 1,
            width,
            stride,
        )
    }
}

/// The offset of pixel (`row`, `col`), or `None` where it does not fit in `usize`
/// (then the pixel lies past the end of any buffer).
fn pixel_offset(row: usize, col: usize, stride: usize) -> (r: Option<usize>)
    ensures
        match r {
            Some(o) => o as int == row * stride + col * 4,
            None => row * stride + col * 4 > usize::MAX,
        },
{
    let a: usize = match row.checked_mul(stride) {
        Some(a) => a,
        None => {
            assert(row * stride + col * 4 > usize::MAX) by (nonlinear_arith)
                requires
                    row * stride > usize::MAX,
                    col >= 0,
            ;
            return None;
        },
    };
    let b: usize = match col.checked_mul(4) {
        Some(b) => b,
        None => {
            return None;
        },
    };
    match a.checked_add(b) {
        Some(o) => Some(o),
        None => None,
    }
}

/// Turns a blue-green-red-alpha buffer of `height` rows of `stride` bytes into
/// packed red-green-blue-alpha pixels, `width` per row; pixels that the buffer
/// does not hold in full are left out.
pub fn bgra_to_rgba(data: &[u8], width: usize, height: usize, stride: usize) -> (r: Vec<u8>)
    ensures
        r@ == image_rgba(data@, height as nat, width as nat, stride as int),
{
    let mut out: Vec<u8> = Vec::new();
    let mut row: usize = 0;
    while row < height
        invariant
            row <= height,
            out@ == image_rgba(data@, row as nat, width as nat, stride as int),
        decreases height - row,
    {
        let ghost before = out@;
        let mut col: usize = 0;
        while col < width
            invariant
                row < height,
                col <= width,
                out@ == before + row_rgba(data@, row as int, col as nat, stride as int),
            decreases width - col,
        {
            let ghost prev = out@;
            match pixel_offset(row, col, stride) {
                Some(off) => {
                    if off < data.len() && data.len() - off > 3 {
                        out.push(data[off + 2]);
                        out.push(data[off + 1]);
                        out.push(data[off]);
                        out.push(data[off + 3]);
                        assert(out@ =~= prev + rgba_at(data@, off as int));
                    } else {
                        assert(rgba_at(data@, off as int) =~= Seq::<u8>::empty());
                        assert(out@ =~= prev + rgba_at(data@, off as int));
                    }
                },
                None => {
                    let n: usize = data.len();
                    assert(n as int + 0 <= usize::MAX);
                    assert(rgba_at(data@, row * stride + col * 4) =~= Seq::<u8>::empty());
                    assert(out@ =~= prev + rgba_at(data@, row * stride + col * 4));
                },
            }
            col = col + 1;
            assert(out@ =~= before + row_rgba(data@, row as int, col as nat, stride as int));
        }
        row = row + 1;
        assert(out@ =~= image_rgba(data@, row as nat, width as nat, stride as int));
    }
    out
}

} // verus!
