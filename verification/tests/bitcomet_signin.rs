use aes::Aes256;
use base64::Engine;
use cbc::cipher::{block_padding::Pkcs7, BlockEncryptMut, KeyIvInit};
use hmac::Mac;
use qbee_limiter::bitcomet::{bitcomet_client_id, bitcomet_encrypt, bitcomet_encrypt_with};
use qbee_limiter::config::AppConfig;
use qbee_limiter::controller::BitCometClient;
use qbee_limiter::json::{get_member, JsonValue};
use sha2::Digest;

fn expected_id(computer: &str, dir: &str) -> String {
    let seed = format!("download-client-game-speed-limiter:{computer}:{dir}");
    let digest = sha2::Sha256::digest(seed.as_bytes());
    let mut b = [0u8; 16];
    b.copy_from_slice(&digest[..16]);
    b[6] = (b[6] & 0x0f) | 0x40;
    b[8] = (b[8] & 0x3f) | 0x80;
    let hex: Vec<String> = b.iter().map(|x| format!("{x:02x}")).collect();
    format!(
        "{}-{}-{}-{}-{}",
        hex[0..4].concat(),
        hex[4..6].concat(),
        hex[6..8].concat(),
        hex[8..10].concat(),
        hex[10..16].concat()
    )
}

#[test]
fn client_id_is_a_stable_version_4_uuid() {
    let id = bitcomet_client_id("GAMING-PC", "C:\\Tools");
    assert_eq!(id, expected_id("GAMING-PC", "C:\\Tools"));
    assert_eq!(id.len(), 36);
    assert_eq!(&id[14..15], "4");
    assert!(matches!(&id[19..20], "8" | "9" | "a" | "b"));
    assert_eq!(id, bitcomet_client_id("GAMING-PC", "C:\\Tools"));
    assert_ne!(id, bitcomet_client_id("OTHER", "C:\\Tools"));
}

fn expected_packet(plain: &str, password: &str, sk: &[u8; 8], sh: &[u8; 8], iv: &[u8; 16]) -> String {
    let mut key = [0u8; 32];
    let mut hkey = [0u8; 32];
    pbkdf2::pbkdf2_hmac::<sha1::Sha1>(password.as_bytes(), sk, 10_000, &mut key);
    pbkdf2::pbkdf2_hmac::<sha1::Sha1>(password.as_bytes(), sh, 10_000, &mut hkey);
    let ct = cbc::Encryptor::<Aes256>::new(&key.into(), &(*iv).into()).encrypt_padded_vec_mut::<Pkcs7>(plain.as_bytes());
    let mut packet = vec![3u8, 1];
    packet.extend_from_slice(sk);
    packet.extend_from_slice(sh);
    packet.extend_from_slice(iv);
    packet.extend_from_slice(&ct);
    let mut mac = <hmac::Hmac<sha2::Sha256> as Mac>::new_from_slice(&hkey).unwrap();
    mac.update(&packet);
    packet.extend_from_slice(&mac.finalize().into_bytes());
    base64::engine::general_purpose::STANDARD.encode(packet)
}

#[test]
fn authentication_packet_with_given_salts() {
    let sk = [1u8, 2, 3, 4, 5, 6, 7, 8];
    let sh = [9u8; 8];
    let iv = [7u8; 16];
    let plain = "{\"username\":\"admin\",\"password\":\"pw\"}";
    let got = bitcomet_encrypt_with(plain, "pw", &sk, &sh, &iv).unwrap();
    assert_eq!(got, expected_packet(plain, "pw", &sk, &sh, &iv));
    let bytes = base64::engine::general_purpose::STANDARD.decode(&got).unwrap();
    assert_eq!(&bytes[..2], &[3, 1]);
    assert_eq!(&bytes[2..10], &sk);
    // header + padded ciphertext (48 bytes for 36 bytes of text) + tag
    assert_eq!(bytes.len(), 2 + 8 + 8 + 16 + 48 + 32);
}

#[test]
fn authentication_packet_with_random_salts() {
    let a = bitcomet_encrypt("x", "pw").unwrap();
    let b = bitcomet_encrypt("x", "pw").unwrap();
    let bytes = base64::engine::general_purpose::STANDARD.decode(&a).unwrap();
    assert_eq!(bytes.len(), 2 + 8 + 8 + 16 + 16 + 32);
    assert_ne!(a, b);
}

#[test]
fn sign_in_steps() {
    let mut c = AppConfig::default();
    c.username = "  ".into();
    let b = BitCometClient::new(&c, "cid".into());
    assert!(b.check_account().unwrap_err().starts_with("BitComet WebUI 需要用户名和密码。"));
    c.username = "admin".into();
    c.password = "pw".into();
    let mut b = BitCometClient::new(&c, "cid".into());
    assert!(b.check_account().is_ok());
    let req = b.login_request("AUTH".into());
    assert!(matches!(get_member(&req, "client_id"), Some(JsonValue::Str(x)) if x == "cid"));
    let answer = JsonValue::Object(vec![("invite_token".into(), JsonValue::Str("inv".into()))]);
    assert_eq!(BitCometClient::invite_token(&answer), Ok("inv".to_string()));
    assert_eq!(
        BitCometClient::invite_token(&JsonValue::Object(vec![])).unwrap_err(),
        "BitComet 登录成功响应中没有 invite_token。"
    );
    let dev = b.device_token_request("inv");
    assert!(matches!(get_member(&dev, "device_name"), Some(JsonValue::Str(x)) if x == "Download Client Game Speed Limiter"));
    assert_eq!(
        b.accept_device_token(&JsonValue::Object(vec![("device_token".into(), JsonValue::Str(String::new()))])).unwrap_err(),
        "BitComet 返回了空 device_token，请检查 WebUI 账号密码。"
    );
    assert!(b.token.is_none());
    assert!(b.accept_device_token(&JsonValue::Object(vec![("device_token".into(), JsonValue::Str("D".into()))])).is_ok());
    assert_eq!(b.token, Some("D".into()));
    assert_eq!(b.url("/api/x"), "http://127.0.0.1:80/api/x");
}
