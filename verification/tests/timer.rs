use hyperfine_core::timer::{cpu_interval, ticks_to_micros, CpuInterval, CpuSample};

#[test]
fn cpu_interval_subtracts_cumulative_readings() {
    let start = CpuSample {
        user_sec: 1,
        user_usec: 500_000,
        system_sec: 0,
        system_usec: 100,
    };
    let end = CpuSample {
        user_sec: 2,
        user_usec: 700_000,
        system_sec: 1,
        system_usec: 200,
    };
    assert_eq!(
        cpu_interval(&start, &end),
        Some(CpuInterval {
            user_micros: 1_200_000,
            system_micros: 1_000_100,
        })
    );
}

#[test]
fn cpu_interval_of_equal_readings_is_zero() {
    let s = CpuSample {
        user_sec: 3,
        user_usec: 250_000,
        system_sec: 7,
        system_usec: 999_999,
    };
    assert_eq!(
        cpu_interval(&s, &s),
        Some(CpuInterval {
            user_micros: 0,
            system_micros: 0,
        })
    );
}

#[test]
fn cpu_interval_rejects_a_backwards_pair() {
    let start = CpuSample {
        user_sec: 5,
        user_usec: 0,
        system_sec: 0,
        system_usec: 0,
    };
    let end = CpuSample {
        user_sec: 4,
        user_usec: 999_999,
        system_sec: 0,
        system_usec: 0,
    };
    assert_eq!(cpu_interval(&start, &end), None);
}

#[test]
fn cpu_interval_rejects_a_reading_too_large_for_microseconds() {
    let start = CpuSample {
        user_sec: 0,
        user_usec: 0,
        system_sec: 0,
        system_usec: 0,
    };
    let end = CpuSample {
        user_sec: u64::MAX,
        user_usec: 0,
        system_sec: 0,
        system_usec: 0,
    };
    assert_eq!(cpu_interval(&start, &end), None);
}

#[test]
fn ticks_convert_to_whole_microseconds() {
    assert_eq!(ticks_to_micros(0), 0);
    assert_eq!(ticks_to_micros(9), 0);
    assert_eq!(ticks_to_micros(10), 1);
    assert_eq!(ticks_to_micros(25), 2);
    assert_eq!(ticks_to_micros(10_000_000), 1_000_000);
}
