use ssd1327_i2c::{flush_result, Pixel, Transaction, SSD1327I2C};

#[test]
fn flush_of_a_blank_frame() {
    let driver = SSD1327I2C::new();
    let plan = driver.flush();
    assert_eq!(plan.len(), 2 + 128 * (64 / 8));
    assert_eq!(plan.len(), 1026);
    assert_eq!(plan[0], Transaction { address: 0x3C, bytes: vec![0x00, 0x15, 0x00, 0x3F] });
    assert_eq!(plan[1], Transaction { address: 0x3C, bytes: vec![0x00, 0x75, 0x00, 0x7F] });
    let mut data_writes: usize = 0;
    for t in &plan[2..] {
        assert_eq!(t.address, 0x3C);
        assert_eq!(t.bytes, vec![0x40, 0, 0, 0, 0, 0, 0, 0, 0]);
        data_writes += 1;
    }
    assert_eq!(data_writes, 1024);
}

#[test]
fn flush_spans_the_configured_geometry() {
    let driver = SSD1327I2C::with_addr_wh(0x3D, 96, 64);
    let plan = driver.flush();
    assert_eq!(plan.len(), 1026);
    assert_eq!(plan[0], Transaction { address: 0x3D, bytes: vec![0x00, 0x15, 0x00, 48] });
    assert_eq!(plan[1], Transaction { address: 0x3D, bytes: vec![0x00, 0x75, 0x00, 64] });
    assert!(plan[2..].iter().all(|t| t.address == 0x3D && t.bytes.len() == 9));
}

#[test]
fn flush_streams_the_framebuffer_in_order() {
    let mut driver = SSD1327I2C::new();
    driver.write_pixel(0, 0, 0x01);
    driver.write_pixel(17, 0, 0x02);
    driver.write_pixel(5, 3, 0x09);
    driver.write_pixel(126, 127, 0x0E);
    driver.write_pixel(127, 127, 0x0F);
    let plan = driver.flush();
    assert_eq!(plan.len(), 1026);
    assert_eq!(plan[2].bytes, vec![0x40, 0x10, 0, 0, 0, 0, 0, 0, 0]);
    assert_eq!(plan[3].bytes, vec![0x40, 0x02, 0, 0, 0, 0, 0, 0, 0]);
    assert_eq!(plan[2 + 194 / 8].bytes, vec![0x40, 0, 0, 0x09, 0, 0, 0, 0, 0]);
    assert_eq!(plan[1025].bytes, vec![0x40, 0, 0, 0, 0, 0, 0, 0, 0xEF]);
    let mut streamed: Vec<u8> = Vec::new();
    for t in &plan[2..] {
        assert_eq!(t.bytes[0], 0x40);
        streamed.extend_from_slice(&t.bytes[1..]);
    }
    assert_eq!(streamed.len(), 8192);
    let mut index: usize = 0;
    while index < 8192 {
        assert_eq!(streamed[index], driver.framebuffer().byte(index));
        index += 1;
    }
}

#[test]
fn flush_leaves_the_framebuffer_as_it_is() {
    let mut driver = SSD1327I2C::new();
    driver.draw_iter(&[Pixel { x: 40, y: 40, luma: 0x07 }]);
    let first = driver.flush();
    let second = driver.flush();
    assert_eq!(first, second);
    assert_eq!(driver.framebuffer().byte(20 + 40 * 64), 0x70);
}

#[test]
fn send_buffer_data_carries_one_chunk() {
    let mut driver = SSD1327I2C::with_addr(0x3D);
    driver.write_pixel(2, 0, 0x0A);
    driver.write_pixel(17, 0, 0x0B);
    assert_eq!(
        driver.send_buffer_data(0),
        Transaction { address: 0x3D, bytes: vec![0x40, 0x00, 0xA0, 0, 0, 0, 0, 0, 0] }
    );
    assert_eq!(
        driver.send_buffer_data(8),
        Transaction { address: 0x3D, bytes: vec![0x40, 0x0B, 0, 0, 0, 0, 0, 0, 0] }
    );
    assert_eq!(
        driver.send_buffer_data(8184),
        Transaction { address: 0x3D, bytes: vec![0x40, 0, 0, 0, 0, 0, 0, 0, 0] }
    );
}

fn outcomes(failed: &[(usize, u8)]) -> Vec<Result<(), u8>> {
    let mut all: Vec<Result<(), u8>> = vec![Ok(()); 1026];
    for (at, code) in failed {
        all[*at] = Err(*code);
    }
    all
}

#[test]
fn flush_result_without_failure() {
    assert_eq!(flush_result(outcomes(&[])), Ok(()));
}

#[test]
fn flush_result_reports_a_single_failure() {
    assert_eq!(flush_result(outcomes(&[(500, 7)])), Err(7));
    assert_eq!(flush_result(outcomes(&[(2, 8)])), Err(8));
    assert_eq!(flush_result(outcomes(&[(1025, 9)])), Err(9));
}

#[test]
fn flush_result_reports_the_last_failure() {
    assert_eq!(flush_result(outcomes(&[(10, 1), (20, 2), (900, 3)])), Err(3));
    assert_eq!(flush_result(outcomes(&[(1024, 4), (1025, 5)])), Err(5));
    assert_eq!(flush_result(outcomes(&[(2, 6), (3, 6), (4, 1)])), Err(1));
}

#[test]
fn flush_result_passes_over_the_window_commands() {
    assert_eq!(flush_result(outcomes(&[(0, 1)])), Ok(()));
    assert_eq!(flush_result(outcomes(&[(1, 2)])), Ok(()));
    assert_eq!(flush_result(outcomes(&[(0, 1), (1, 2)])), Ok(()));
    assert_eq!(flush_result(outcomes(&[(0, 1), (1, 2), (2, 3)])), Err(3));
}

#[test]
fn flush_result_of_short_input() {
    let none: Vec<Result<(), u8>> = Vec::new();
    assert_eq!(flush_result(none), Ok(()));
    assert_eq!(flush_result(vec![Err(1u8)]), Ok(()));
    assert_eq!(flush_result(vec![Err(1u8), Err(2u8)]), Ok(()));
    assert_eq!(flush_result(vec![Ok(()), Ok(()), Err(3u8)]), Err(3));
    assert_eq!(flush_result(vec![Ok(()), Ok(()), Err(3u8), Ok(())]), Err(3));
}
