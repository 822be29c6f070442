use vstd::prelude::*;

verus! {

/// Width and height of a surface or a capture target, in pixels.
#[derive(Clone, Copy, Debug, PartialEq, Eq, Structural)]
pub struct Size {
    pub width: i32,
    pub height: i32,
}

/// `v` rounded up to the next even number (or `v` itself when it is even).
pub open spec fn even_up(v: int) -> int {
    if v % 2 == 0 {
        v
    } else {
        v + 1
    }
}

/// Both dimensions of `s` are even.
pub open spec fn is_even_size(s: Size) -> bool {
    s.width % 2 == 0 && s.height % 2 == 0
}

/// Both dimensions of `s` can be rounded up to even without leaving `i32`.
pub open spec fn can_align(s: Size) -> bool {
    s.width < i32::MAX && s.height < i32::MAX
}

/// `s` with each dimension rounded up to even.
pub open spec fn even_align(s: Size) -> Size {
    Size { width: even_up(s.width as int) as i32, height: even_up(s.height as int) as i32 }
}

/// Rounds `value` up to the next even number; even values are kept.
pub fn ensure_even(value: i32) -> (r: i32)
    requires
        value < i32::MAX,
    ensures
        r as int == even_up(value as int),
        r % 2 == 0,
{
    if value % 2 == 0 {
        value
    } else {
        value + 1
    }
}

/// Rounds both dimensions of `size` up to even numbers.
pub fn ensure_even_size(size: Size) -> (r: Size)
    requires
        can_align(size),
    ensures
        r == even_align(size),
        is_even_size(r),
        is_even_size(size) ==> r == size,
{
    Size { width: ensure_even(size.width), height: ensure_even(size.height) }
}

/// Even alignment yields even dimensions, keeps a size whose dimensions are
/// already even, and so applying it a second time changes nothing.
pub proof fn lemma_even_align(s: Size)
    requires
        can_align(s),
    ensures
        is_even_size(even_align(s)),
        is_even_size(s) ==> even_align(s) == s,
        can_align(even_align(s)),
        even_align(even_align(s)) == even_align(s),
{
}

} // verus!
