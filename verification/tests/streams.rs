use byte_chan::byte_chan;
use byte_chan::RxErr;

#[test]
fn send_two_then_drop_sender() {
    let (tx, mut rx) = byte_chan();
    tx.send(b'x');
    tx.send(b'y');
    drop(tx);
    assert_eq!(rx.recv(), Ok(Some(b'x')));
    assert_eq!(rx.recv(), Ok(Some(b'y')));
    assert_eq!(rx.recv(), Err(RxErr::TxClosed));
}

#[test]
fn hello_read_into_five_bytes() {
    let (mut tx, mut rx) = byte_chan();
    assert_eq!(tx.write(b"hello"), 5);
    drop(tx);
    let mut dest = [0u8; 5];
    let mut got = 0;
    while got < 5 {
        match rx.read(&mut dest[got..]) {
            Some(0) => panic!("the stream ended after {} bytes", got),
            Some(n) => got += n,
            None => panic!("the sender is gone, there is nothing to wait for"),
        }
    }
    assert_eq!(&dest, b"hello");
    assert_eq!(rx.read(&mut dest), Some(0));
}

#[test]
fn hello_arriving_in_two_parts() {
    let (mut tx, mut rx) = byte_chan();
    let mut dest = [0u8; 5];
    assert_eq!(rx.read(&mut dest), None);
    assert_eq!(tx.write(b"he"), 2);
    assert_eq!(rx.read(&mut dest), Some(2));
    assert_eq!(rx.read(&mut dest[2..]), None);
    assert_eq!(tx.write(b"llo"), 3);
    drop(tx);
    assert_eq!(rx.read(&mut dest[2..]), Some(3));
    assert_eq!(&dest, b"hello");
    assert_eq!(rx.read(&mut dest), Some(0));
    assert_eq!(&dest, b"hello");
}

#[test]
fn drop_both_without_writes() {
    let (tx, rx) = byte_chan();
    drop(tx);
    drop(rx);
    let (tx, rx) = byte_chan();
    drop(rx);
    drop(tx);
}

#[test]
fn ten_thousand_bytes_before_any_read() {
    let (mut tx, mut rx) = byte_chan();
    let mut written = Vec::new();
    for i in 0..10_000u32 {
        written.push((i % 251) as u8);
    }
    for (i, b) in written.iter().enumerate() {
        if i % 2 == 0 {
            tx.send(*b);
        } else {
            assert_eq!(tx.write(&[*b]), 1);
        }
    }
    drop(tx);
    let mut read = Vec::new();
    loop {
        match rx.recv() {
            Ok(Some(b)) => read.push(b),
            Ok(None) => panic!("the sender is gone, there is nothing to wait for"),
            Err(RxErr::TxClosed) => break,
        }
    }
    assert_eq!(read.len(), 10_000);
    assert_eq!(read, written);
}

#[test]
fn ten_thousand_bytes_in_one_write_read_in_bulk() {
    let (mut tx, mut rx) = byte_chan();
    let mut written = Vec::new();
    for i in 0..10_000u32 {
        written.push((i % 253) as u8);
    }
    assert_eq!(tx.write(&written), 10_000);
    let mut read = Vec::new();
    let mut dest = [0u8; 4096];
    assert_eq!(rx.read(&mut dest), Some(4096));
    read.extend_from_slice(&dest);
    assert_eq!(rx.read(&mut dest), Some(4096));
    read.extend_from_slice(&dest);
    assert_eq!(rx.read(&mut dest), Some(1808));
    read.extend_from_slice(&dest[..1808]);
    assert_eq!(rx.read(&mut dest), None);
    drop(tx);
    assert_eq!(rx.read(&mut dest), Some(0));
    assert_eq!(read, written);
}
