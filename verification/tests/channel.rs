use rest_api_server::error::Error;
use rest_api_server::utils::{
    EmailStruct, EmailType, EncryptionClient, Exchange, CODE_OK, HEAD_AES_DECRYPT,
    HEAD_AES_ENCRYPT, POOL_PER_CLIENT,
};

fn frame_of(exchange: Exchange) -> Vec<u8> {
    match exchange {
        Exchange::Send(frame) => frame,
        other => panic!("no frame: {:?}", other),
    }
}

#[test]
fn the_codes_of_the_protocol() {
    assert_eq!(HEAD_AES_ENCRYPT, 146);
    assert_eq!(HEAD_AES_DECRYPT, 1);
    assert_eq!(CODE_OK, 0);
    assert_eq!(POOL_PER_CLIENT, 20);
}

#[test]
fn an_empty_message_is_its_own_result() {
    assert!(matches!(EncryptionClient::aes_encrypt(&[]), Exchange::Finished(Ok(ref b)) if b.is_empty()));
    assert!(matches!(EncryptionClient::aes_decrypt(&[]), Exchange::Finished(Ok(ref b)) if b.is_empty()));
}

#[test]
fn the_frame_of_a_request_to_encrypt() {
    assert_eq!(frame_of(EncryptionClient::aes_encrypt(b"abc")), vec![146, 0, 0, 0, 3, 97, 98, 99]);
}

#[test]
fn the_frame_of_a_request_to_decrypt() {
    assert_eq!(frame_of(EncryptionClient::aes_decrypt(&[9])), vec![1, 0, 0, 0, 1, 9]);
}

#[test]
fn the_length_is_written_in_network_order() {
    let message = vec![7u8; 0x01_02_03];
    let frame = frame_of(EncryptionClient::send_request(5, &message));
    assert_eq!(&frame[..5], &[5, 0, 1, 2, 3]);
    assert_eq!(frame.len(), 5 + 0x01_02_03);
    assert_eq!(&frame[5..], &message[..]);
}

#[test]
fn the_head_of_an_answer_that_succeeded() {
    assert!(matches!(EncryptionClient::read_head(&[0, 0, 0, 0, 16]), Exchange::Receive(16)));
    assert!(matches!(EncryptionClient::read_head(&[0, 0, 1, 2, 3]), Exchange::Receive(0x01_02_03)));
    assert!(matches!(
        EncryptionClient::read_head(&[0, 0xff, 0xff, 0xff, 0xff]),
        Exchange::Receive(0xffff_ffff)
    ));
    assert!(matches!(EncryptionClient::read_head(&[0, 0, 0, 0, 0]), Exchange::Receive(0)));
}

#[test]
fn the_head_of_an_answer_that_failed() {
    for status in [1u8, 2, 146, 255] {
        assert!(matches!(
            EncryptionClient::read_head(&[status, 0, 0, 0, 4]),
            Exchange::Finished(Err(Error::RequestError))
        ));
    }
}

#[test]
fn the_end_of_an_exchange() {
    assert!(matches!(EncryptionClient::finish(2, vec![1, 2]), Exchange::Finished(Ok(ref b)) if b == &vec![1, 2]));
    assert!(matches!(EncryptionClient::finish(0, vec![]), Exchange::Finished(Ok(ref b)) if b.is_empty()));
    assert!(matches!(EncryptionClient::finish(3, vec![1, 2]), Exchange::Finished(Err(Error::IO))));
    assert!(matches!(EncryptionClient::finish(1, vec![1, 2]), Exchange::Finished(Err(Error::IO))));
    assert!(matches!(EncryptionClient::fail(), Exchange::Finished(Err(Error::IO))));
}

#[test]
fn the_pool_hands_out_the_first_idle_connection() {
    let mut pool = EncryptionClient::new(1).unwrap();
    assert_eq!(pool.len(), 20);
    assert_eq!(pool.acquire(), Some(0));
    assert_eq!(pool.acquire(), Some(1));
    assert_eq!(pool.acquire(), Some(2));
    pool.release(1);
    assert_eq!(pool.acquire(), Some(1));
    pool.release(0);
    pool.release(2);
    assert_eq!(pool.acquire(), Some(0));
    assert_eq!(pool.acquire(), Some(2));
    assert_eq!(pool.acquire(), Some(3));
}

#[test]
fn a_pool_in_full_use_hands_out_nothing() {
    let mut pool = EncryptionClient::new(2).unwrap();
    assert_eq!(pool.len(), 40);
    for i in 0..40 {
        assert_eq!(pool.acquire(), Some(i));
    }
    assert_eq!(pool.acquire(), None);
    assert_eq!(pool.acquire(), None);
    pool.release(39);
    pool.release(1000);
    assert_eq!(pool.acquire(), Some(39));
}

#[test]
fn the_connections_of_a_server_stand_together() {
    assert_eq!(EncryptionClient::server_of(0), 0);
    assert_eq!(EncryptionClient::server_of(19), 0);
    assert_eq!(EncryptionClient::server_of(20), 1);
    assert_eq!(EncryptionClient::server_of(45), 2);
    assert!(EncryptionClient::new(0).unwrap().acquire().is_none());
    assert!(EncryptionClient::new(usize::MAX).is_none());
}

#[test]
fn a_mail_carries_its_key() {
    let mail = EmailStruct {
        email: "a@b.c".to_string(),
        email_key: "key".to_string(),
        email_type: EmailType::Password,
    };
    assert_eq!(mail.email_type, EmailType::Password);
    assert_ne!(mail.email_type, EmailType::Email);
    assert_eq!(mail.email, "a@b.c");
    assert_eq!(mail.email_key, "key");
}
