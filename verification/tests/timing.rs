use node_librespot::timing::playing_ns;
use std::time::Duration;

fn floating(frames: usize, rate: u32) -> u128 {
    Duration::from_secs_f64(frames as f64 / rate as f64).as_nanos()
}

#[test]
fn exact_times() {
    assert_eq!(playing_ns(0, 44100), 0);
    assert_eq!(playing_ns(1, 44100), 22676);
    assert_eq!(playing_ns(44100, 44100), 1_000_000_000);
    assert_eq!(playing_ns(1, u32::MAX), 0);
    assert_eq!(playing_ns(5, 1), 5_000_000_000);
}

#[test]
fn ties_go_to_the_even_nanosecond() {
    assert_eq!(playing_ns(1, 1024), 976_562);
    assert_eq!(playing_ns(3, 1024), 2_929_688);
    for frames in 0..5000 {
        for rate in [1024, 2048, 384_000, 640_000, 1_024_000, 1_600_000, 3_200_000, 12_800_000] {
            assert_eq!(playing_ns(frames, rate), floating(frames, rate), "{} at {}", frames, rate);
        }
    }
}

#[test]
fn times_are_those_of_floating_point_arithmetic() {
    let mut seed: u64 = 88172645463325252;
    for round in 0..200_000u32 {
        seed ^= seed << 13;
        seed ^= seed >> 7;
        seed ^= seed << 17;
        let frames = ((seed >> 1) >> (round % 63)) as usize;
        seed = seed.wrapping_mul(6364136223846793005).wrapping_add(1442695040888963407);
        let rate = (((seed >> 32) as u32) >> (round % 31)).max(1);
        assert_eq!(playing_ns(frames, rate), floating(frames, rate), "{} at {}", frames, rate);
    }
}

#[test]
fn long_times_are_rounded_twice() {
    for bits in [51u32, 52, 53, 54, 55, 62] {
        for step in 0..64usize {
            for rate in [1, 2, 3, 7, 1024, 44100, u32::MAX - 1, u32::MAX] {
                for frames in [(1usize << bits) + step, (1usize << bits) - 1 - step] {
                    assert_eq!(playing_ns(frames, rate), floating(frames, rate), "{} at {}", frames, rate);
                }
            }
        }
    }
}
