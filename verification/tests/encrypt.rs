use ctbox::network::encrypt::encrypt;

#[test]
fn encrypt_test() {
    assert_eq!("2tHxu", encrypt(false, "ctbox"));
    assert_eq!("XWVGw", encrypt(false, "hhhil"));
    assert_eq!("jiIJthtt1SDW1sf6", encrypt(false, "20240323.hil_321"));
    assert_eq!("kIjhJ6tN", encrypt(false, "31415926"));
}

#[test]
fn decrypt_test() {
    assert_eq!("DtyxH", encrypt(true, "ctbox"));
    assert_eq!("u%02R", encrypt(true, "hhhil"));
    assert_eq!("clsJp0021wyp1xxY", encrypt(true, "20240323.hil_321"));
    assert_eq!("rmIpDA0b", encrypt(true, "31415926"));
}

#[test]
fn decrypt_undoes_encrypt_on_key_text() {
    for s in ["hhhil", "31415926", "689abcrstu%012345vwxyABCDEFG", "ZZZZZZZZZZZZZZZZZZZZZZZZZZZZZZZZZZZZZZZZZZZZZZZZZZZZZZZZZZZZZZZZZ"] {
        assert_eq!(s, encrypt(true, &encrypt(false, s)));
    }
}

#[test]
fn encrypt_undoes_decrypt_on_key_text() {
    for s in ["hhhil", "rsHYZ23t", "%01xy", "ffffffffffffffffffffffffffffffffffffffffffffffffffffffffffffffffffff"] {
        assert_eq!(s, encrypt(false, &encrypt(true, s)));
    }
}

#[test]
fn characters_outside_the_key_become_the_last_character() {
    assert_eq!("bY", encrypt(false, ".b"));
    assert_eq!("YbH", encrypt(false, "a.b"));
    assert_eq!("ééé", encrypt(false, "ééé"));
}

#[test]
fn empty_text_stays_empty() {
    assert_eq!("", encrypt(false, ""));
    assert_eq!("", encrypt(true, ""));
}

#[test]
fn length_is_kept() {
    let s = "a long text with spaces, punctuation; and 0123456789 digits";
    assert_eq!(s.chars().count(), encrypt(false, s).chars().count());
    assert_eq!(s.chars().count(), encrypt(true, s).chars().count());
}
