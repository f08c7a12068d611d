use oobe::swap_size::{get_recommend_swap_size, get_recommend_swap_size_inner};

const GIB: u64 = 1024 * 1024 * 1024;
const MIB: u64 = 1024 * 1024;

#[test]
fn half_gib_of_memory_gets_one_gib_of_swap() {
    // 512 MiB is 0.5 GiB, at most one GiB, so the swap is twice the memory.
    assert_eq!(get_recommend_swap_size_inner(512 * MIB), GIB);
}

#[test]
fn four_gib_of_memory_gets_six_gib_of_swap() {
    // 4 GiB is above one GiB: 4 + round(sqrt(4)) = 6 GiB.
    assert_eq!(get_recommend_swap_size_inner(4 * GIB), 6 * GIB);
}

#[test]
fn sixty_four_gib_of_memory_is_clamped_to_thirty_two() {
    assert_eq!(get_recommend_swap_size_inner(64 * GIB), 32 * GIB);
}

#[test]
fn no_memory_no_swap() {
    assert_eq!(get_recommend_swap_size_inner(0), 0);
}

#[test]
fn one_gib_exactly_is_doubled() {
    assert_eq!(get_recommend_swap_size_inner(GIB), 2 * GIB);
}

#[test]
fn fractional_memory_rounds_the_square_root() {
    // 2.25 GiB: sqrt is exactly 1.5, which rounds away from zero to 2,
    // so the swap is 2.25 GiB + 2 GiB.
    let mem = 9 * (GIB / 4);
    assert_eq!(get_recommend_swap_size_inner(mem), mem + 2 * GIB);
    // Just below 2.25 GiB the square root rounds down to 1.
    assert_eq!(get_recommend_swap_size_inner(mem - 1), mem - 1 + GIB);
}

#[test]
fn recommendation_shrinks_when_disk_is_short() {
    // 4 GiB of memory recommends 6 GiB; with only 2 GiB free the
    // recommendation becomes four fifths of the overshoot.
    let rec = 6 * GIB;
    let avail = 2 * GIB;
    assert_eq!(get_recommend_swap_size(4 * GIB, avail), (rec - avail) * 4 / 5);
}

#[test]
fn recommendation_unchanged_when_disk_is_large() {
    assert_eq!(get_recommend_swap_size(4 * GIB, 100 * GIB), 6 * GIB);
}

#[test]
fn disk_correction_applies_at_equality() {
    // When the free space exactly equals the recommendation the correction
    // still fires.
    assert_eq!(get_recommend_swap_size(4 * GIB, 6 * GIB), 0);
}
