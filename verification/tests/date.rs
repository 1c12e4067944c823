use islamic_prayer_times::calendar::CivilDate;
use islamic_prayer_times::prayer_times::date::DateRange;
use islamic_prayer_times::prayer_times::parallel_blocks;

fn date(y: i32, m: u32, d: u32) -> CivilDate {
    CivilDate::from_ymd_opt(y, m, d).unwrap()
}

fn check_partition_of_2023(date_ranges: &[DateRange], date_range: &DateRange) {
    let block_size = 37;
    let mut next_start_date = *date_range.start_date();
    for idx in 0..date_ranges.len() {
        let mut end_date = next_start_date.checked_add_days(block_size - 1).unwrap();
        if end_date > *date_range.end_date() {
            end_date = *date_range.end_date();
        }
        let next_date_range = DateRange::new(next_start_date, end_date);
        assert_eq!(next_date_range, date_ranges[idx]);
        next_start_date = next_date_range.end_date().checked_add_days(1).unwrap();
    }
}

#[test]
fn date_test_partition_date_range() {
    let start_date = date(2023, 1, 1);
    let end_date = date(2023, 12, 31);
    let date_range = DateRange::new(start_date, end_date);
    let count = 10;
    let date_ranges = date_range.partition(count);
    assert_eq!(count, date_ranges.len());
    check_partition_of_2023(&date_ranges, &date_range);
}

#[test]
fn main_test_partition_date_range() {
    let start_date = date(2023, 1, 1);
    let end_date = date(2023, 12, 31);
    let date_range = DateRange::new(start_date, end_date);
    let count = 10;
    let date_ranges = date_range.partition(count);
    assert_eq!(count, date_ranges.len());
    check_partition_of_2023(&date_ranges, &date_range);
}

#[test]
fn partition_in_one_block_is_the_range() {
    let range = DateRange::new(date(2023, 1, 1), date(2023, 1, 31));
    assert_eq!(vec![range], range.partition(1));
    let reversed = DateRange::new(date(2023, 1, 31), date(2023, 1, 1));
    assert_eq!(vec![reversed], reversed.partition(1));
}

#[test]
fn partition_makes_no_more_blocks_than_days() {
    let range = DateRange::new(date(2024, 2, 28), date(2024, 3, 1));
    assert_eq!(3, range.num_days());
    let blocks = range.partition(8);
    assert_eq!(
        vec![
            DateRange::new(date(2024, 2, 28), date(2024, 2, 28)),
            DateRange::new(date(2024, 2, 29), date(2024, 2, 29)),
            DateRange::new(date(2024, 3, 1), date(2024, 3, 1)),
        ],
        blocks
    );
    let blocks = range.partition(2);
    assert_eq!(
        vec![
            DateRange::new(date(2024, 2, 28), date(2024, 2, 29)),
            DateRange::new(date(2024, 3, 1), date(2024, 3, 1)),
        ],
        blocks
    );
}

#[test]
fn partition_of_a_range_without_days_is_empty() {
    let reversed = DateRange::new(date(2023, 1, 31), date(2023, 1, 1));
    assert_eq!(0, reversed.num_days());
    assert!(reversed.partition(4).is_empty());
}

#[test]
fn partition_blocks_follow_one_another_and_cover_the_range() {
    let range = DateRange::new(date(1999, 11, 20), date(2001, 3, 7));
    for count in [2usize, 3, 7, 64, 365, 1000, usize::MAX] {
        let blocks = range.partition(count);
        assert!(blocks.len() <= count);
        assert_eq!(range.start_date(), blocks[0].start_date());
        assert_eq!(range.end_date(), blocks[blocks.len() - 1].end_date());
        let mut days = 0;
        for i in 0..blocks.len() {
            assert!(blocks[i].start_date() <= blocks[i].end_date());
            if i > 0 {
                assert_eq!(1, blocks[i].start_date().days_since(blocks[i - 1].end_date()));
            }
            days += blocks[i].num_days();
        }
        assert_eq!(range.num_days(), days);
    }
}

#[test]
fn num_days_counts_both_ends() {
    assert_eq!(1, DateRange::new(date(2023, 2, 6), date(2023, 2, 6)).num_days());
    assert_eq!(365, DateRange::new(date(2023, 1, 1), date(2023, 12, 31)).num_days());
    assert_eq!(366, DateRange::new(date(2024, 1, 1), date(2024, 12, 31)).num_days());
    assert_eq!(
        191_491_529,
        DateRange::new(date(-262_143, 1, 1), date(262_142, 12, 31)).num_days()
    );
}

#[test]
fn date_range_text_joins_the_two_dates() {
    let range = DateRange::new(date(2023, 1, 1), date(2023, 1, 31));
    assert_eq!("2023-01-01 - 2023-01-31", range.to_string());
    assert_eq!(&date(2023, 1, 1), range.start_date());
    assert_eq!(&date(2023, 1, 31), range.end_date());
}

#[test]
fn parallel_blocks_keep_a_short_range_in_one_piece() {
    let year = DateRange::new(date(2023, 1, 1), date(2023, 12, 31));
    assert_eq!(vec![year], parallel_blocks(&year, 1, 1));
    // 365 days for 8 workers are 45 days each: fewer than 365.
    assert_eq!(vec![year], parallel_blocks(&year, 8, 365));
    // 45 days each are not fewer than 45.
    let blocks = parallel_blocks(&year, 8, 45);
    assert_eq!(year.partition(8), blocks);
    assert_eq!(8, blocks.len());
    assert_eq!(vec![year], parallel_blocks(&year, 8, 46));
}
