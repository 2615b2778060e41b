use ingest_bench::data_source::{
    next_batch, random_row, random_vin_col, ts_micros_col, ts_micros_from, QUEUE_CAPACITY,
    VIN_LIMIT,
};
use rand::Rng;
use std::time::{SystemTime, UNIX_EPOCH};

fn draw_field() -> u32 {
    rand::thread_rng().gen_range(0.0..120.0f32).to_bits()
}

#[test]
fn test_gen() {
    let mut rng = rand::thread_rng();
    let (vin, fields) = next_batch(1, 10, &mut rng, &draw_field);

    assert_eq!(1, vin.len());
    assert_eq!(10, fields.len());
}

#[test]
fn batch_has_the_configured_shape() {
    let mut rng = rand::thread_rng();
    for (batch_size, column_num) in [(0usize, 0usize), (3, 0), (0, 4), (7, 5), (10, 1200)] {
        let (vin, fields) = next_batch(batch_size, column_num, &mut rng, &draw_field);
        assert_eq!(vin.len(), batch_size);
        assert_eq!(fields.len(), column_num);
        for col in &fields {
            assert_eq!(col.len(), batch_size);
        }
    }
}

#[test]
fn tags_lie_in_range() {
    let mut rng = rand::thread_rng();
    let col = random_vin_col(5000, &mut rng);
    assert_eq!(col.len(), 5000);
    assert_eq!(VIN_LIMIT, 200);
    for vin in &col {
        assert!(0 <= *vin && *vin < 200);
    }
}

#[test]
fn tags_are_drawn_not_fixed() {
    let mut rng = rand::thread_rng();
    let col = random_vin_col(1000, &mut rng);
    let first = col[0];
    assert!(col.iter().any(|vin| *vin != first));
}

#[test]
fn empty_tag_column() {
    let mut rng = rand::thread_rng();
    assert_eq!(random_vin_col(0, &mut rng), Vec::<i32>::new());
}

#[test]
fn field_values_lie_in_range() {
    let mut rng = rand::thread_rng();
    let (_, fields) = next_batch(50, 20, &mut rng, &draw_field);
    for col in &fields {
        for bits in col {
            let value = f32::from_bits(*bits);
            assert!(0.0 <= value && value < 120.0);
        }
    }
}

#[test]
fn row_holds_what_was_drawn() {
    let row = random_row(4, &|| 42.5f32.to_bits());
    assert_eq!(row, vec![42.5f32.to_bits(); 4]);
    assert_eq!(random_row(0, &draw_field), Vec::<u32>::new());
}

#[test]
fn timestamps_from_a_start() {
    assert_eq!(ts_micros_from(1_700_000_000_000_000, 3), Some(vec![
        1_700_000_000_000_000i64,
        1_700_000_000_000_001,
        1_700_000_000_000_002,
    ]));
    assert_eq!(ts_micros_from(0, 1), Some(vec![0i64]));
    assert_eq!(ts_micros_from(5, 0), Some(Vec::<i64>::new()));
}

#[test]
fn timestamps_that_do_not_fit() {
    let last = i64::MAX as u128;
    assert_eq!(ts_micros_from(last, 1), Some(vec![i64::MAX]));
    assert_eq!(ts_micros_from(last - 1, 2), Some(vec![i64::MAX - 1, i64::MAX]));
    assert_eq!(ts_micros_from(last, 2), None);
    assert_eq!(ts_micros_from(last + 1, 1), None);
    assert_eq!(ts_micros_from(u128::MAX, 1), None);
    assert_eq!(ts_micros_from(u128::MAX, 0), Some(Vec::<i64>::new()));
}

#[test]
fn timestamps_start_at_the_wall_clock() {
    let before = SystemTime::now().duration_since(UNIX_EPOCH).unwrap().as_micros() as i64;
    let col = ts_micros_col(10).unwrap();
    let after = SystemTime::now().duration_since(UNIX_EPOCH).unwrap().as_micros() as i64;

    assert_eq!(col.len(), 10);
    assert!(before <= col[0] && col[0] <= after);
    for i in 1..col.len() {
        assert_eq!(col[i], col[i - 1] + 1);
    }
}

#[test]
fn no_rows_no_timestamps() {
    assert_eq!(ts_micros_col(0), Some(Vec::<i64>::new()));
}

#[test]
fn queue_capacity() {
    assert_eq!(QUEUE_CAPACITY, 1024);
}
