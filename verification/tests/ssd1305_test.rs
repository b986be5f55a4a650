use energy_monitor::driver::gpio::Level;
use energy_monitor::driver::ssd1305::Pixel;
use energy_monitor::driver::ssd1305::Ssd1305;

fn bytes(display: &Ssd1305) -> Vec<u8> {
    display.flush().into_iter().flat_map(|t| t.data).collect()
}

#[test]
fn test_ssd1305_new_is_dark() {
    let display = Ssd1305::new();
    assert_eq!(display.size(), (128, 32));
    assert_eq!(bytes(&display), vec![0u8; 512]);
}

#[test]
fn test_ssd1305_begin() {
    let display = Ssd1305::new();
    assert_eq!(display.reset(), vec![Level::High, Level::Low, Level::High]);
    assert_eq!(
        display.begin(),
        vec![
            0xAE, 0x04, 0x10, 0x40, 0x81, 0x00, 0xA1, 0xA6, 0xA8, 0x1F, 0xC8, 0xD3, 0x00, 0xD5,
            0xF0, 0xD8, 0x05, 0xD9, 0xC2, 0xDA, 0x12, 0xDB, 0x08
        ]
    );
    assert_eq!(display.display_on(), 0xAF);
    assert_eq!(display.display_off(), 0xAE);
    assert_eq!(display.display_contrast(0x7F), (0x81, 0x7F));
}

#[test]
fn test_ssd1305_draw() {
    let mut display = Ssd1305::new();
    display.draw(Pixel { x: 0, y: 0, on: true });
    display.draw(Pixel { x: 127, y: 31, on: true });
    display.draw(Pixel { x: 5, y: 9, on: true });
    display.draw(Pixel { x: 5, y: 10, on: true });
    let b = bytes(&display);
    assert_eq!(b[0], 0b0000_0001);
    assert_eq!(b[511], 0b1000_0000);
    assert_eq!(b[128 + 5], 0b0000_0110);
    assert_eq!(b.iter().filter(|&&x| x != 0).count(), 3);
    assert!(display.is_lit(0, 0));
    assert!(display.is_lit(5, 9));
    assert!(!display.is_lit(5, 8));
    assert!(!display.is_lit(1, 0));
    display.draw(Pixel { x: 5, y: 9, on: false });
    assert_eq!(bytes(&display)[128 + 5], 0b0000_0100);
    assert!(!display.is_lit(5, 9));
    assert!(display.is_lit(5, 10));
    assert!(!display.is_lit(-1, 0));
    assert!(!display.is_lit(0, 32));
    assert!(!display.is_lit(128, 0));
}

#[test]
fn test_ssd1305_draw_off_the_panel() {
    let mut display = Ssd1305::new();
    display.draw_iter(&vec![
        Pixel { x: -1, y: 0, on: true },
        Pixel { x: 0, y: -1, on: true },
        Pixel { x: 128, y: 0, on: true },
        Pixel { x: 0, y: 32, on: true },
        Pixel { x: i32::MAX, y: i32::MIN, on: true },
    ]);
    assert_eq!(bytes(&display), vec![0u8; 512]);
}

#[test]
fn test_ssd1305_draw_iter_and_clear() {
    let mut display = Ssd1305::new();
    let mut pixels = Vec::new();
    for x in 0..128 {
        for y in 0..32 {
            pixels.push(Pixel { x, y, on: (x + y) % 2 == 0 });
        }
    }
    display.draw_iter(&pixels);
    for x in 0..128i32 {
        for y in 0..32i32 {
            assert_eq!(display.is_lit(x, y), (x + y) % 2 == 0);
        }
    }
    display.clear();
    assert_eq!(bytes(&display), vec![0u8; 512]);
}

#[test]
fn test_ssd1305_flush() {
    let mut display = Ssd1305::new();
    display.draw(Pixel { x: 3, y: 17, on: true });
    let transfers = display.flush();
    assert_eq!(transfers.len(), 4);
    for (page, transfer) in transfers.iter().enumerate() {
        assert_eq!(transfer.commands, vec![0xB0 + page as u8, 0x04, 0x10]);
        assert_eq!(transfer.data.len(), 128);
    }
    assert_eq!(transfers[2].data[3], 0b0000_0010);
    assert_eq!(transfers[0].data, vec![0u8; 128]);
}
