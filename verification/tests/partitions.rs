use initramfs_lib::config::Cfg;
use initramfs_lib::partitions::{get_partitions, PartitionError, Partitions, Volume};

fn cfg(root: &str, swap: &str, home: &str) -> Cfg {
    Cfg {
        root_uuid: root.to_string(),
        swap_uuid: swap.to_string(),
        home_uuid: home.to_string(),
        key_file_path: None,
    }
}

fn parts(root: &str, swap: &str, home: &str) -> Partitions {
    Partitions { root: root.to_string(), swap: swap.to_string(), home: home.to_string() }
}

#[test]
fn resolves_three_partitions() {
    let listing = "/dev/sda1: UUID=\"abc-1\"\n/dev/sda2: UUID=\"def-2\"\n/dev/sda3: UUID=\"ghi-3\"\n";
    assert_eq!(
        get_partitions(&cfg("abc-1", "def-2", "ghi-3"), listing),
        Ok(parts("/dev/sda1", "/dev/sda2", "/dev/sda3"))
    );
}

#[test]
fn home_not_found_names_the_identifier() {
    let listing = "/dev/sda1: UUID=\"abc-1\"\n/dev/sda2: UUID=\"def-2\"\n";
    assert_eq!(
        get_partitions(&cfg("abc-1", "def-2", "ghi-3"), listing),
        Err(PartitionError::NotFound { volume: Volume::Home, id: "ghi-3".to_string() })
    );
}

#[test]
fn not_found_is_reported_in_the_order_root_swap_home() {
    assert_eq!(
        get_partitions(&cfg("a-1", "b-2", "c-3"), ""),
        Err(PartitionError::NotFound { volume: Volume::Root, id: "a-1".to_string() })
    );
    assert_eq!(
        get_partitions(&cfg("a-1", "b-2", "c-3"), "/dev/x: UUID=\"a-1\"\n/dev/y: UUID=\"c-3\""),
        Err(PartitionError::NotFound { volume: Volume::Swap, id: "b-2".to_string() })
    );
}

#[test]
fn identifier_matches_inside_an_unrelated_attribute() {
    let listing = "/dev/nvme0n1p1: UUID=\"zzz\" PARTUUID=\"11abc-1ff\"\n/dev/nvme0n1p2: LABEL=\"def-2\"\n/dev/nvme0n1p3: TYPE=\"ghi-3\"\n";
    assert_eq!(
        get_partitions(&cfg("abc-1", "def-2", "ghi-3"), listing),
        Ok(parts("/dev/nvme0n1p1", "/dev/nvme0n1p2", "/dev/nvme0n1p3"))
    );
}

#[test]
fn first_match_wins() {
    let listing = "/dev/a: UUID=\"r\"\n/dev/b: UUID=\"s\"\n/dev/c: UUID=\"r\"\n/dev/d: UUID=\"h\"\n/dev/e: UUID=\"s\"\n";
    assert_eq!(
        get_partitions(&cfg("\"r\"", "\"s\"", "\"h\""), listing),
        Ok(parts("/dev/a", "/dev/b", "/dev/d"))
    );
}

#[test]
fn one_line_can_serve_two_partitions() {
    let listing = "/dev/a: UUID=\"root swap\"\n/dev/b: UUID=\"swap\"\n/dev/c: UUID=\"home\"\n";
    assert_eq!(
        get_partitions(&cfg("root", "swap", "home"), listing),
        Ok(parts("/dev/a", "/dev/a", "/dev/c"))
    );
}

#[test]
fn identifier_inside_another_identifier_matches_too() {
    let listing = "/dev/sda1: UUID=\"abc-1\"\n/dev/sda3: UUID=\"ghi-3\"\n";
    assert_eq!(
        get_partitions(&cfg("abc", "abc-1", "ghi-3"), listing),
        Ok(parts("/dev/sda1", "/dev/sda1", "/dev/sda3"))
    );
}

#[test]
fn one_line_can_serve_all_three_partitions() {
    assert_eq!(
        get_partitions(&cfg("a", "b", "c"), "/dev/x: abc"),
        Ok(parts("/dev/x", "/dev/x", "/dev/x"))
    );
}

#[test]
fn broken_line_of_two_partitions_is_reported_for_the_one_that_ranks_first() {
    assert_eq!(
        get_partitions(&cfg("r", "s", "h"), "/dev/x: r\nh and s\n"),
        Err(PartitionError::NoDevice {
            volume: Volume::Swap,
            id: "s".to_string(),
            line: "h and s".to_string(),
        })
    );
    assert_eq!(
        get_partitions(&cfg("r", "s", "h"), "h r s\n/dev/x: r s h\n"),
        Err(PartitionError::NoDevice {
            volume: Volume::Root,
            id: "r".to_string(),
            line: "h r s".to_string(),
        })
    );
}

#[test]
fn earlier_broken_line_wins_over_rank() {
    assert_eq!(
        get_partitions(&cfg("r", "s", "h"), "only h\nonly r\n"),
        Err(PartitionError::NoDevice {
            volume: Volume::Home,
            id: "h".to_string(),
            line: "only h".to_string(),
        })
    );
}

#[test]
fn device_is_cut_at_the_first_colon() {
    let listing = "/dev/a:b: UUID=\"r\"\n:UUID=\"s\"\n/dev/c: UUID=\"h\"";
    assert_eq!(
        get_partitions(&cfg("\"r\"", "\"s\"", "\"h\""), listing),
        Ok(parts("/dev/a", "", "/dev/c"))
    );
}

#[test]
fn first_line_without_colon_is_the_failure() {
    let listing = "/dev/a: UUID=\"r\"\nUUID=\"h\"\nUUID=\"s\"\n";
    assert_eq!(
        get_partitions(&cfg("\"r\"", "\"s\"", "\"h\""), listing),
        Err(PartitionError::NoDevice {
            volume: Volume::Home,
            id: "\"h\"".to_string(),
            line: "UUID=\"h\"".to_string(),
        })
    );
}

#[test]
fn later_matches_are_not_read() {
    let listing = "/dev/a: UUID=\"r\"\nUUID=\"r\"\n/dev/b: UUID=\"s\"\n/dev/c: UUID=\"h\"\n";
    assert_eq!(
        get_partitions(&cfg("\"r\"", "\"s\"", "\"h\""), listing),
        Ok(parts("/dev/a", "/dev/b", "/dev/c"))
    );
}

#[test]
fn carriage_returns_before_line_feeds_are_dropped() {
    let listing = "/dev/a: r1\r\n/dev/b: s2\r\n/dev/c: h3\r";
    assert_eq!(
        get_partitions(&cfg("r1", "s2", "h3\r"), listing),
        Ok(parts("/dev/a", "/dev/b", "/dev/c"))
    );
    assert_eq!(
        get_partitions(&cfg("r1\r", "s2", "h3"), listing),
        Err(PartitionError::NotFound { volume: Volume::Root, id: "r1\r".to_string() })
    );
}

#[test]
fn empty_identifier_matches_every_line() {
    assert_eq!(
        get_partitions(&cfg("", "s", "h"), "/dev/a: x\n/dev/b: s\n"),
        Err(PartitionError::NotFound { volume: Volume::Home, id: "h".to_string() })
    );
    assert_eq!(
        get_partitions(&cfg("", "s", "h"), "/dev/a: x\n/dev/b: s\n/dev/c: h\n"),
        Ok(parts("/dev/a", "/dev/b", "/dev/c"))
    );
}
