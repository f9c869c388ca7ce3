use byte_chan::buf::Buf;
use byte_chan::byte_chan;
use byte_chan::ActiveSig;
use byte_chan::RxErr;

fn drain(rx: &mut byte_chan::ByteRx) -> Vec<u8> {
    let mut out = Vec::new();
    while let Ok(Some(b)) = rx.recv() {
        out.push(b);
    }
    out
}

#[test]
fn reads_are_the_writes_in_order() {
    let (mut tx, mut rx) = byte_chan();
    assert_eq!(tx.write(b"ab"), 2);
    tx.send(b'c');
    assert_eq!(tx.write(b""), 0);
    assert_eq!(tx.write(b"def"), 3);
    assert_eq!(drain(&mut rx), b"abcdef");
    assert_eq!(rx.recv(), Ok(None));
}

#[test]
fn order_does_not_depend_on_chunk_boundaries() {
    let (mut tx, mut rx) = byte_chan();
    tx.write(b"abc");
    assert_eq!(rx.recv(), Ok(Some(b'a')));
    tx.write(b"de");
    assert_eq!(rx.recv(), Ok(Some(b'b')));
    tx.send(b'f');
    let mut dest = [0u8; 8];
    assert_eq!(rx.read(&mut dest), Some(1));
    assert_eq!(dest[0], b'c');
    tx.write(b"gh");
    assert_eq!(rx.read(&mut dest), Some(5));
    assert_eq!(&dest[..5], b"defgh");
    assert_eq!(rx.read(&mut dest), None);
}

#[test]
fn every_byte_is_read_before_the_close_is_seen() {
    let (mut tx, mut rx) = byte_chan();
    tx.write(b"last words");
    drop(tx);
    assert!(rx.tx_closed());
    let mut read = Vec::new();
    for _ in 0..10 {
        match rx.recv() {
            Ok(Some(b)) => read.push(b),
            other => panic!("{:?} before the stream was read to its end", other),
        }
    }
    assert_eq!(read, b"last words");
    assert_eq!(rx.recv(), Err(RxErr::TxClosed));
}

#[test]
fn bytes_written_after_an_empty_look_are_not_lost() {
    let (mut tx, mut rx) = byte_chan();
    assert_eq!(rx.recv(), Ok(None));
    tx.write(b"z");
    drop(tx);
    assert_eq!(rx.recv(), Ok(Some(b'z')));
    assert_eq!(rx.recv(), Err(RxErr::TxClosed));
}

#[test]
fn closed_stays_closed() {
    let (tx, mut rx) = byte_chan();
    assert!(!rx.tx_closed());
    tx.send(1);
    assert!(!rx.tx_closed());
    drop(tx);
    assert!(rx.tx_closed());
    assert_eq!(rx.recv(), Ok(Some(1)));
    assert!(rx.tx_closed());
    assert_eq!(rx.recv(), Err(RxErr::TxClosed));
    assert!(rx.tx_closed());
    assert_eq!(rx.recv(), Err(RxErr::TxClosed));
    assert!(rx.tx_closed());
}

#[test]
fn empty_and_closed_fails_at_once() {
    let (tx, mut rx) = byte_chan();
    drop(tx);
    assert_eq!(rx.recv(), Err(RxErr::TxClosed));
    let mut dest = [7u8; 3];
    assert_eq!(rx.read(&mut dest), Some(0));
    assert_eq!(dest, [7u8; 3]);
    assert_eq!(rx.recv(), Err(RxErr::TxClosed));
}

#[test]
fn nothing_yet_while_the_sender_is_there() {
    let (tx, mut rx) = byte_chan();
    assert_eq!(rx.recv(), Ok(None));
    let mut dest = [7u8; 3];
    assert_eq!(rx.read(&mut dest), None);
    assert_eq!(dest, [7u8; 3]);
    tx.send(9);
    assert_eq!(rx.recv(), Ok(Some(9)));
    assert_eq!(rx.recv(), Ok(None));
}

#[test]
fn zero_only_when_closed_and_drained() {
    let (mut tx, mut rx) = byte_chan();
    let mut dest = [0u8; 2];
    assert_eq!(rx.read(&mut dest), None);
    tx.write(b"abc");
    assert_eq!(rx.read(&mut dest), Some(2));
    assert_eq!(&dest, b"ab");
    drop(tx);
    assert_eq!(rx.read(&mut dest), Some(1));
    assert_eq!(&dest, b"cb");
    assert_eq!(rx.read(&mut dest), Some(0));
    assert_eq!(&dest, b"cb");
    assert_eq!(rx.read(&mut dest), Some(0));
}

#[test]
fn read_into_empty_destination() {
    let (mut tx, mut rx) = byte_chan();
    let mut none = [0u8; 0];
    assert_eq!(rx.read(&mut none), None);
    tx.write(b"ab");
    assert_eq!(rx.read(&mut none), Some(0));
    assert_eq!(rx.recv(), Ok(Some(b'a')));
    assert_eq!(rx.read(&mut none), Some(0));
    assert_eq!(rx.recv(), Ok(Some(b'b')));
    drop(tx);
    assert_eq!(rx.read(&mut none), Some(0));
    assert_eq!(rx.recv(), Err(RxErr::TxClosed));
}

#[test]
fn read_does_not_wait_to_fill_the_destination() {
    let (mut tx, mut rx) = byte_chan();
    tx.write(b"abc");
    let mut dest = [b'.'; 6];
    assert_eq!(rx.read(&mut dest), Some(3));
    assert_eq!(&dest, b"abc...");
    tx.write(b"de");
    assert_eq!(rx.read(&mut dest[3..]), Some(2));
    assert_eq!(&dest, b"abcde.");
}

#[test]
fn read_serves_one_chunk_at_a_time() {
    let (mut tx, mut rx) = byte_chan();
    tx.write(b"ab");
    assert_eq!(rx.recv(), Ok(Some(b'a')));
    tx.write(b"cd");
    let mut dest = [b'.'; 4];
    assert_eq!(rx.read(&mut dest), Some(1));
    assert_eq!(&dest, b"b...");
    assert_eq!(rx.read(&mut dest), Some(2));
    assert_eq!(&dest, b"cd..");
}

#[test]
fn write_reports_the_full_length() {
    let (mut tx, mut rx) = byte_chan();
    assert_eq!(tx.write(&[]), 0);
    assert_eq!(tx.write(&[1]), 1);
    assert_eq!(tx.write(&[2; 70_000]), 70_000);
    assert_eq!(rx.recv(), Ok(Some(1)));
    let rest = drain(&mut rx);
    assert_eq!(rest.len(), 70_000);
    assert!(rest.iter().all(|b| *b == 2));
}

#[test]
fn flush_changes_nothing() {
    let (mut tx, mut rx) = byte_chan();
    tx.flush();
    assert_eq!(rx.recv(), Ok(None));
    tx.send(5);
    tx.flush();
    assert_eq!(rx.recv(), Ok(Some(5)));
    assert_eq!(rx.recv(), Ok(None));
    assert!(!rx.tx_closed());
}

#[test]
fn sender_sees_the_receiver_go() {
    let (mut tx, rx) = byte_chan();
    assert!(!tx.rx_closed());
    assert!(!rx.tx_closed());
    drop(rx);
    assert!(tx.rx_closed());
    tx.send(1);
    assert_eq!(tx.write(b"still writable"), 14);
    tx.flush();
    assert!(tx.rx_closed());
}

#[test]
fn each_side_watches_the_other() {
    let (tx, rx) = byte_chan();
    assert!(!tx.rx_closed());
    drop(tx);
    assert!(rx.tx_closed());
    let (tx, rx) = byte_chan();
    assert!(!rx.tx_closed());
    drop(rx);
    assert!(tx.rx_closed());
}

#[test]
fn watcher_follows_its_signal() {
    let sig = ActiveSig::new();
    let watcher = sig.watcher();
    let second = sig.watcher();
    assert!(watcher.sig_open());
    assert!(!watcher.sig_closed());
    assert!(second.sig_open());
    let other = ActiveSig::new();
    drop(sig);
    assert!(!watcher.sig_open());
    assert!(watcher.sig_closed());
    assert!(second.sig_closed());
    assert!(other.watcher().sig_open());
    assert!(watcher.sig_closed());
}

#[test]
fn take_empties_the_buffer() {
    let buf = Buf::new_arc();
    assert_eq!(buf.take(), Vec::<u8>::new());
    let (tx, mut rx) = byte_chan();
    tx.send(1);
    tx.send(2);
    assert_eq!(rx.recv(), Ok(Some(1)));
    tx.send(3);
    assert_eq!(rx.recv(), Ok(Some(2)));
    assert_eq!(rx.recv(), Ok(Some(3)));
    assert_eq!(rx.recv(), Ok(None));
}

#[test]
fn error_text() {
    assert_eq!(RxErr::TxClosed.to_string(), "TxClosed");
    assert_eq!(format!("{:?}", RxErr::TxClosed), "TxClosed");
}

#[test]
fn watchers_of_one_signal_are_independent() {
    let sig = ActiveSig::new();
    let first = sig.watcher();
    let second = sig.watcher();
    assert!(first.sig_open() && second.sig_open());
    drop(first);
    assert!(second.sig_open());
    let third = sig.watcher();
    assert!(third.sig_open());
    drop(sig);
    assert!(second.sig_closed());
    assert!(third.sig_closed());
}

#[test]
fn a_watcher_observes_its_own_signal_only() {
    let one = ActiveSig::new();
    let other = ActiveSig::new();
    let of_one = one.watcher();
    let of_other = other.watcher();
    drop(one);
    assert!(of_one.sig_closed());
    assert!(of_other.sig_open());
    drop(other);
    assert!(of_other.sig_closed());
}
