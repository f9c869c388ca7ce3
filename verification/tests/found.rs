use byte_chan::byte_chan;
use byte_chan::RxErr;

#[test]
fn refill_with_bytes_from_the_first_take() {
    let (_tx, mut rx) = byte_chan();
    assert_eq!(rx.refill_with(vec![1, 2], false, vec![]), Ok(true));
    assert_eq!(rx.recv(), Ok(Some(1)));
    assert_eq!(rx.recv(), Ok(Some(2)));
    assert_eq!(rx.recv(), Ok(None));
}

#[test]
fn refill_with_first_take_wins_over_the_rest() {
    let (_tx, mut rx) = byte_chan();
    assert_eq!(rx.refill_with(vec![1], true, vec![9]), Ok(true));
    assert_eq!(rx.recv(), Ok(Some(1)));
    assert_eq!(rx.recv(), Ok(None));
}

#[test]
fn refill_with_nothing_and_sender_there() {
    let (_tx, mut rx) = byte_chan();
    assert_eq!(rx.refill_with(vec![], false, vec![]), Ok(false));
    assert_eq!(rx.refill_with(vec![], false, vec![5]), Ok(false));
    assert_eq!(rx.recv(), Ok(None));
}

#[test]
fn refill_with_bytes_from_the_second_take() {
    let (_tx, mut rx) = byte_chan();
    assert_eq!(rx.refill_with(vec![], true, vec![5, 6]), Ok(true));
    assert_eq!(rx.recv(), Ok(Some(5)));
    assert_eq!(rx.recv(), Ok(Some(6)));
}

#[test]
fn refill_with_nothing_and_sender_gone() {
    let (_tx, mut rx) = byte_chan();
    assert_eq!(rx.refill_with(vec![], true, vec![]), Err(RxErr::TxClosed));
    assert_eq!(rx.recv(), Ok(None));
}

#[test]
fn recv_with_each_finding() {
    let (_tx, mut rx) = byte_chan();
    assert_eq!(rx.recv_with(vec![], false, vec![]), Ok(None));
    assert_eq!(rx.recv_with(vec![], true, vec![]), Err(RxErr::TxClosed));
    assert_eq!(rx.recv_with(vec![b'x', b'y'], false, vec![]), Ok(Some(b'x')));
    assert_eq!(rx.recv_with(vec![], true, vec![]), Ok(Some(b'y')));
    assert_eq!(rx.recv_with(vec![], true, vec![b'z']), Ok(Some(b'z')));
    assert_eq!(rx.recv_with(vec![], true, vec![]), Err(RxErr::TxClosed));
    assert_eq!(rx.recv_with(vec![], true, vec![]), Err(RxErr::TxClosed));
}

#[test]
fn recv_with_serves_the_chunk_in_hand_first() {
    let (_tx, mut rx) = byte_chan();
    assert_eq!(rx.recv_with(vec![1, 2], false, vec![]), Ok(Some(1)));
    assert_eq!(rx.recv_with(vec![7], true, vec![8]), Ok(Some(2)));
    assert_eq!(rx.recv_with(vec![], false, vec![]), Ok(None));
}

#[test]
fn read_with_each_finding() {
    let (_tx, mut rx) = byte_chan();
    let mut dest = [b'.'; 4];
    assert_eq!(rx.read_with(&mut dest, vec![], false, vec![]), None);
    assert_eq!(&dest, b"....");
    assert_eq!(rx.read_with(&mut dest, vec![], true, vec![]), Some(0));
    assert_eq!(&dest, b"....");
    assert_eq!(rx.read_with(&mut dest, b"hello!".to_vec(), false, vec![]), Some(4));
    assert_eq!(&dest, b"hell");
    assert_eq!(rx.read_with(&mut dest, vec![], true, vec![]), Some(2));
    assert_eq!(&dest, b"o!ll");
    assert_eq!(rx.read_with(&mut dest, vec![], true, b"ab".to_vec()), Some(2));
    assert_eq!(&dest, b"abll");
    assert_eq!(rx.read_with(&mut dest, vec![], true, vec![]), Some(0));
    assert_eq!(&dest, b"abll");
}

#[test]
fn read_with_and_recv_with_share_the_cursor() {
    let (_tx, mut rx) = byte_chan();
    assert_eq!(rx.recv_with(b"hello".to_vec(), false, vec![]), Ok(Some(b'h')));
    let mut dest = [0u8; 3];
    assert_eq!(rx.read_with(&mut dest, vec![], false, vec![]), Some(3));
    assert_eq!(&dest, b"ell");
    assert_eq!(rx.recv_with(vec![], false, vec![]), Ok(Some(b'o')));
    assert_eq!(rx.read_with(&mut dest, vec![], false, vec![]), None);
}

#[test]
fn read_with_into_empty_destination() {
    let (_tx, mut rx) = byte_chan();
    let mut none = [0u8; 0];
    assert_eq!(rx.read_with(&mut none, vec![1], false, vec![]), Some(0));
    assert_eq!(rx.recv_with(vec![], true, vec![]), Ok(Some(1)));
    assert_eq!(rx.read_with(&mut none, vec![], true, vec![]), Some(0));
}
