use split_keyboard::buffer::KeyboardRingBuffer;
use split_keyboard::report::KeyboardReportHelper;

fn numbered(n: usize) -> KeyboardReportHelper {
    KeyboardReportHelper::from_values(0, (n % 256) as u8, (n / 256) as u8, 1, 0, 0, 0)
}

#[test]
fn queue_is_fifo_and_drops_newest_when_full() {
    let mut q = KeyboardRingBuffer::new();
    for n in 0..101 {
        q.put_report(numbered(n));
    }
    for n in 0..100 {
        assert_eq!(q.get_report_helper(), Some(numbered(n)));
    }
    assert_eq!(q.get_report_helper(), None);
}

#[test]
fn queue_wraps_around() {
    let mut q = KeyboardRingBuffer::new();
    for round in 0..3 {
        for n in 0..70 {
            q.put_report(numbered(round * 100 + n));
        }
        assert_eq!(q.peek(), Some(numbered(round * 100)));
        for n in 0..70 {
            assert_eq!(q.get_report_helper(), Some(numbered(round * 100 + n)));
        }
    }
    assert_eq!(q.peek(), None);
}

#[test]
fn empty_queue_yields_nothing() {
    let mut q = KeyboardRingBuffer::new();
    assert_eq!(q.peek(), None);
    assert_eq!(q.get_report_helper(), None);
}
