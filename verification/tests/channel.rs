use ws_live_server::channel::{ResponseChannel, TryRecvError};
use ws_live_server::response::TransCoderResponse;

#[test]
fn new_channel_is_empty() {
    let mut channel = ResponseChannel::new();
    assert!(channel.is_empty());
    assert_eq!(channel.len(), 0);
    assert_eq!(channel.try_recv(), Err(TryRecvError::Empty));
}

#[test]
fn messages_leave_in_the_order_sent() {
    let mut channel = ResponseChannel::new();
    assert_eq!(channel.send(TransCoderResponse::Data(vec![1])), Ok(()));
    assert_eq!(channel.send(TransCoderResponse::Data(vec![2, 3])), Ok(()));
    assert_eq!(channel.send(TransCoderResponse::EOS), Ok(()));
    assert_eq!(channel.len(), 3);
    assert!(!channel.is_empty());
    assert_eq!(channel.try_recv(), Ok(TransCoderResponse::Data(vec![1])));
    assert_eq!(channel.send(TransCoderResponse::Error("late".to_string())), Ok(()));
    assert_eq!(channel.try_recv(), Ok(TransCoderResponse::Data(vec![2, 3])));
    assert_eq!(channel.try_recv(), Ok(TransCoderResponse::EOS));
    assert_eq!(channel.try_recv(), Ok(TransCoderResponse::Error("late".to_string())));
    assert_eq!(channel.try_recv(), Err(TryRecvError::Empty));
    assert_eq!(channel.len(), 0);
}

#[test]
fn channel_holds_many_messages() {
    let mut channel = ResponseChannel::new();
    for i in 0..10_000u32 {
        assert_eq!(channel.send(TransCoderResponse::Data(i.to_le_bytes().to_vec())), Ok(()));
    }
    assert_eq!(channel.len(), 10_000);
    for i in 0..10_000u32 {
        assert_eq!(channel.try_recv(), Ok(TransCoderResponse::Data(i.to_le_bytes().to_vec())));
    }
    assert_eq!(channel.try_recv(), Err(TryRecvError::Empty));
}

#[test]
fn disconnected_channel_drains_then_reports_disconnected() {
    let mut channel = ResponseChannel::new();
    assert_eq!(channel.send(TransCoderResponse::Data(vec![9])), Ok(()));
    channel.disconnect();
    assert_eq!(channel.len(), 1);
    assert_eq!(channel.try_recv(), Ok(TransCoderResponse::Data(vec![9])));
    assert_eq!(channel.try_recv(), Err(TryRecvError::Disconnected));
    assert_eq!(channel.try_recv(), Err(TryRecvError::Disconnected));
}

#[test]
fn send_after_disconnect_hands_the_message_back() {
    let mut channel = ResponseChannel::new();
    channel.disconnect();
    assert_eq!(
        channel.send(TransCoderResponse::Data(vec![1, 2])),
        Err(TransCoderResponse::Data(vec![1, 2]))
    );
    assert!(channel.is_empty());
    assert_eq!(channel.try_recv(), Err(TryRecvError::Disconnected));
}

#[test]
fn terminal_messages_are_eos_and_error() {
    assert!(TransCoderResponse::EOS.is_terminal());
    assert!(TransCoderResponse::Error("x".to_string()).is_terminal());
    assert!(!TransCoderResponse::Data(vec![1]).is_terminal());
    assert!(!TransCoderResponse::Data(Vec::new()).is_terminal());
}
