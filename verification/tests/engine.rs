use chacha20poly1305::aead::{Aead, AeadInPlace, NewAead};
use chacha20poly1305::ChaCha20Poly1305;
use ff::{Field, PrimeField};
use group::{Group, GroupEncoding};
use rand_core::{OsRng, RngCore};

use masp_shielded::asset_type::AssetType;
use masp_shielded::consensus::{Network, NetworkUpgrade, ZIP212_GRACE_PERIOD};
use masp_shielded::keys::OutgoingViewingKey;
use masp_shielded::memo::MemoBytes;
use masp_shielded::note_encryption::{
    batch_try_note_decryption, kdf_sapling, prf_ock, sapling_ka_agree, sapling_note_encryption,
    try_sapling_compact_note_decryption, try_sapling_note_decryption,
    try_sapling_output_recovery, try_sapling_output_recovery_with_ock, CompactOutputDescription,
    OutgoingCipherKey, OutputDescription, SaplingDomain, ENC_CIPHERTEXT_SIZE,
    NOTE_PLAINTEXT_SIZE, OUT_CIPHERTEXT_SIZE, OUT_PLAINTEXT_SIZE,
};
use masp_shielded::sapling::{Diversifier, Note, PaymentAddress, Rseed, SaplingIvk};

const TEST_ACTIVATION_HEIGHT: u32 = 1000;

fn test_network() -> Network {
    Network { canopy_activation: Some(TEST_ACTIVATION_HEIGHT) }
}

fn activation_height() -> u32 {
    test_network().activation_height(NetworkUpgrade::Canopy).unwrap()
}

fn random_ivk() -> SaplingIvk {
    SaplingIvk::from_repr(&jubjub::Fr::random(&mut OsRng).to_repr()).unwrap()
}

fn random_bytes_32() -> [u8; 32] {
    let mut b = [0u8; 32];
    OsRng.fill_bytes(&mut b);
    b
}

fn generate_random_rseed(height: u32) -> Rseed {
    if test_network().is_nu_active(NetworkUpgrade::Canopy, height) {
        Rseed::AfterZip212(random_bytes_32())
    } else {
        Rseed::BeforeZip212(jubjub::Fr::random(&mut OsRng).to_repr())
    }
}

fn default_diversifier() -> Diversifier {
    let mut d = Diversifier([10u8; 11]);
    loop {
        if d.g_d().is_some() {
            return d;
        }
        for k in 0..11 {
            d.0[k] = d.0[k].wrapping_add(1);
            if d.0[k] != 0 {
                break;
            }
        }
    }
}

fn find_invalid_diversifier() -> Diversifier {
    let mut d = Diversifier([0u8; 11]);
    loop {
        for k in 0..11 {
            d.0[k] = d.0[k].wrapping_add(1);
            if d.0[k] != 0 {
                break;
            }
        }
        if d.g_d().is_none() {
            break;
        }
    }
    d
}

fn find_valid_diversifier() -> Diversifier {
    let mut d = Diversifier([0u8; 11]);
    loop {
        for k in 0..11 {
            d.0[k] = d.0[k].wrapping_add(1);
            if d.0[k] != 0 {
                break;
            }
        }
        if d.g_d().is_some() {
            break;
        }
    }
    d
}

fn random_enc_ciphertext_with(
    height: u32,
    ivk: &SaplingIvk,
) -> (
    OutgoingViewingKey,
    OutgoingCipherKey,
    OutputDescription,
    Note,
    PaymentAddress,
    MemoBytes,
) {
    let diversifier = default_diversifier();
    let pa = ivk.to_payment_address(diversifier).unwrap();

    let value = 100u64;
    let asset_type = AssetType::new(b"BTC").unwrap();
    let randomness = jubjub::Fr::random(&mut OsRng).to_repr();
    let value_commitment = asset_type.value_commitment(value, &randomness);
    let cv = value_commitment.commitment().unwrap();

    let rseed = generate_random_rseed(height);
    let note = pa.create_note(asset_type, value, rseed).unwrap();
    let cmu = note.cmu();

    let ovk = OutgoingViewingKey([0u8; 32]);
    let memo = MemoBytes::empty();
    let ne = sapling_note_encryption(Some(ovk), note.clone(), pa.clone(), memo.clone());
    let epk = *ne.epk();
    let ock = prf_ock(&ovk, &cv, &cmu, &epk);

    let output = OutputDescription {
        cv,
        cmu,
        ephemeral_key: epk,
        enc_ciphertext: ne.encrypt_note_plaintext(),
        out_ciphertext: ne.encrypt_outgoing_plaintext(&cv, &cmu),
    };

    (ovk, ock, output, note, pa, memo)
}

fn random_enc_ciphertext(
    height: u32,
) -> (OutgoingViewingKey, OutgoingCipherKey, SaplingIvk, OutputDescription) {
    let ivk = random_ivk();
    let (ovk, ock, output, _, _, _) = random_enc_ciphertext_with(height, &ivk);

    assert!(try_sapling_note_decryption(&test_network(), height, &ivk, &output).is_some());
    assert!(try_sapling_compact_note_decryption(
        &test_network(),
        height,
        &ivk,
        &CompactOutputDescription::from_output(&output),
    )
    .is_some());

    let ovk_output_recovery = try_sapling_output_recovery(&test_network(), height, &ovk, &output);
    let ock_output_recovery =
        try_sapling_output_recovery_with_ock(&test_network(), height, &ock, &output);
    assert!(ovk_output_recovery.is_some());
    assert!(ock_output_recovery.is_some());
    assert_eq!(ovk_output_recovery, ock_output_recovery);

    (ovk, ock, ivk, output)
}

fn reencrypt_enc_ciphertext(
    ovk: &OutgoingViewingKey,
    cv: &[u8; 32],
    cmu: &[u8; 32],
    ephemeral_key: &[u8; 32],
    enc_ciphertext: &mut [u8; ENC_CIPHERTEXT_SIZE],
    out_ciphertext: &[u8; OUT_CIPHERTEXT_SIZE],
    modify_plaintext: impl Fn(&mut [u8; NOTE_PLAINTEXT_SIZE]),
) {
    let ock = prf_ock(ovk, cv, cmu, ephemeral_key);

    let mut op = [0u8; OUT_PLAINTEXT_SIZE];
    op.copy_from_slice(&out_ciphertext[..OUT_PLAINTEXT_SIZE]);

    ChaCha20Poly1305::new(ock.0[..].into())
        .decrypt_in_place_detached(
            [0u8; 12][..].into(),
            &[],
            &mut op,
            out_ciphertext[OUT_PLAINTEXT_SIZE..].into(),
        )
        .unwrap();

    let pk_d: [u8; 32] = op[0..32].try_into().unwrap();
    let esk: [u8; 32] = op[32..OUT_PLAINTEXT_SIZE].try_into().unwrap();

    let shared_secret = sapling_ka_agree(&esk, &pk_d);
    let key = kdf_sapling(&shared_secret, ephemeral_key);

    let mut plaintext = [0u8; NOTE_PLAINTEXT_SIZE];
    plaintext.copy_from_slice(&enc_ciphertext[..NOTE_PLAINTEXT_SIZE]);

    ChaCha20Poly1305::new(key[..].into())
        .decrypt_in_place_detached(
            [0u8; 12][..].into(),
            &[],
            &mut plaintext,
            enc_ciphertext[NOTE_PLAINTEXT_SIZE..].into(),
        )
        .unwrap();

    modify_plaintext(&mut plaintext);

    let tag = ChaCha20Poly1305::new(key[..].into())
        .encrypt_in_place_detached([0u8; 12][..].into(), &[], &mut plaintext)
        .unwrap();

    enc_ciphertext[..NOTE_PLAINTEXT_SIZE].copy_from_slice(&plaintext);
    enc_ciphertext[NOTE_PLAINTEXT_SIZE..].copy_from_slice(&tag);
}

#[test]
fn decryption_with_invalid_ivk() {
    let heights = [activation_height()];

    for &height in heights.iter() {
        let (_, _, _, output) = random_enc_ciphertext(height);

        assert_eq!(
            try_sapling_note_decryption(&test_network(), height, &random_ivk(), &output),
            None
        );
    }
}

#[test]
fn decryption_with_invalid_epk() {
    let heights = [activation_height()];

    for &height in heights.iter() {
        let (_, _, ivk, mut output) = random_enc_ciphertext(height);

        output.ephemeral_key = jubjub::ExtendedPoint::random(&mut OsRng).to_bytes();

        assert_eq!(
            try_sapling_note_decryption(&test_network(), height, &ivk, &output),
            None
        );
    }
}

#[test]
fn decryption_with_invalid_cmu() {
    let heights = [activation_height()];

    for &height in heights.iter() {
        let (_, _, ivk, mut output) = random_enc_ciphertext(height);
        output.cmu = random_bytes_32();

        assert_eq!(
            try_sapling_note_decryption(&test_network(), height, &ivk, &output),
            None
        );
    }
}

#[test]
fn decryption_with_invalid_tag() {
    let heights = [activation_height()];

    for &height in heights.iter() {
        let (_, _, ivk, mut output) = random_enc_ciphertext(height);
        output.enc_ciphertext[ENC_CIPHERTEXT_SIZE - 1] ^= 0xff;

        assert_eq!(
            try_sapling_note_decryption(&test_network(), height, &ivk, &output),
            None
        );
    }
}

#[test]
fn decryption_with_invalid_version_byte() {
    let canopy_activation_height = activation_height();
    let heights = [
        canopy_activation_height - 1,
        canopy_activation_height,
        canopy_activation_height + ZIP212_GRACE_PERIOD,
    ];
    let leadbytes = [0x02, 0x03, 0x01];

    for (&height, &leadbyte) in heights.iter().zip(leadbytes.iter()) {
        let (ovk, _, ivk, mut output) = random_enc_ciphertext(height);

        let cv = output.cv;
        let cmu = output.cmu;
        let ephemeral_key = output.ephemeral_key;
        let out_ciphertext = output.out_ciphertext;
        reencrypt_enc_ciphertext(
            &ovk,
            &cv,
            &cmu,
            &ephemeral_key,
            &mut output.enc_ciphertext,
            &out_ciphertext,
            |pt| pt[0] = leadbyte,
        );
        assert_eq!(
            try_sapling_note_decryption(&test_network(), height, &ivk, &output),
            None
        );
    }
}

#[test]
fn decryption_with_invalid_diversifier() {
    let heights = [activation_height()];

    for &height in heights.iter() {
        let (ovk, _, ivk, mut output) = random_enc_ciphertext(height);

        let cv = output.cv;
        let cmu = output.cmu;
        let ephemeral_key = output.ephemeral_key;
        let out_ciphertext = output.out_ciphertext;
        reencrypt_enc_ciphertext(
            &ovk,
            &cv,
            &cmu,
            &ephemeral_key,
            &mut output.enc_ciphertext,
            &out_ciphertext,
            |pt| pt[1..12].copy_from_slice(&find_invalid_diversifier().0),
        );
        assert_eq!(
            try_sapling_note_decryption(&test_network(), height, &ivk, &output),
            None
        );
    }
}

#[test]
fn decryption_with_incorrect_diversifier() {
    let heights = [activation_height()];

    for &height in heights.iter() {
        let (ovk, _, ivk, mut output) = random_enc_ciphertext(height);

        let cv = output.cv;
        let cmu = output.cmu;
        let ephemeral_key = output.ephemeral_key;
        let out_ciphertext = output.out_ciphertext;
        reencrypt_enc_ciphertext(
            &ovk,
            &cv,
            &cmu,
            &ephemeral_key,
            &mut output.enc_ciphertext,
            &out_ciphertext,
            |pt| pt[1..12].copy_from_slice(&find_valid_diversifier().0),
        );
        assert_eq!(
            try_sapling_note_decryption(&test_network(), height, &ivk, &output),
            None
        );
    }
}

#[test]
fn compact_decryption_with_invalid_ivk() {
    let heights = [activation_height()];

    for &height in heights.iter() {
        let (_, _, _, output) = random_enc_ciphertext(height);

        assert_eq!(
            try_sapling_compact_note_decryption(
                &test_network(),
                height,
                &random_ivk(),
                &CompactOutputDescription::from_output(&output)
            ),
            None
        );
    }
}

#[test]
fn compact_decryption_with_invalid_epk() {
    let heights = [activation_height()];

    for &height in heights.iter() {
        let (_, _, ivk, mut output) = random_enc_ciphertext(height);
        output.ephemeral_key = jubjub::ExtendedPoint::random(&mut OsRng).to_bytes();

        assert_eq!(
            try_sapling_compact_note_decryption(
                &test_network(),
                height,
                &ivk,
                &CompactOutputDescription::from_output(&output)
            ),
            None
        );
    }
}

#[test]
fn compact_decryption_with_invalid_cmu() {
    let heights = [activation_height()];

    for &height in heights.iter() {
        let (_, _, ivk, mut output) = random_enc_ciphertext(height);
        output.cmu = random_bytes_32();

        assert_eq!(
            try_sapling_compact_note_decryption(
                &test_network(),
                height,
                &ivk,
                &CompactOutputDescription::from_output(&output)
            ),
            None
        );
    }
}

#[test]
fn compact_decryption_with_invalid_version_byte() {
    let canopy_activation_height = activation_height();
    let heights = [
        canopy_activation_height - 1,
        canopy_activation_height,
        canopy_activation_height + ZIP212_GRACE_PERIOD,
    ];
    let leadbytes = [0x02, 0x03, 0x01];

    for (&height, &leadbyte) in heights.iter().zip(leadbytes.iter()) {
        let (ovk, _, ivk, mut output) = random_enc_ciphertext(height);

        let cv = output.cv;
        let cmu = output.cmu;
        let ephemeral_key = output.ephemeral_key;
        let out_ciphertext = output.out_ciphertext;
        reencrypt_enc_ciphertext(
            &ovk,
            &cv,
            &cmu,
            &ephemeral_key,
            &mut output.enc_ciphertext,
            &out_ciphertext,
            |pt| pt[0] = leadbyte,
        );
        assert_eq!(
            try_sapling_compact_note_decryption(
                &test_network(),
                height,
                &ivk,
                &CompactOutputDescription::from_output(&output)
            ),
            None
        );
    }
}

#[test]
fn compact_decryption_with_invalid_diversifier() {
    let heights = [activation_height()];

    for &height in heights.iter() {
        let (ovk, _, ivk, mut output) = random_enc_ciphertext(height);

        let cv = output.cv;
        let cmu = output.cmu;
        let ephemeral_key = output.ephemeral_key;
        let out_ciphertext = output.out_ciphertext;
        reencrypt_enc_ciphertext(
            &ovk,
            &cv,
            &cmu,
            &ephemeral_key,
            &mut output.enc_ciphertext,
            &out_ciphertext,
            |pt| pt[1..12].copy_from_slice(&find_invalid_diversifier().0),
        );
        assert_eq!(
            try_sapling_compact_note_decryption(
                &test_network(),
                height,
                &ivk,
                &CompactOutputDescription::from_output(&output)
            ),
            None
        );
    }
}

#[test]
fn compact_decryption_with_incorrect_diversifier() {
    let heights = [activation_height()];

    for &height in heights.iter() {
        let (ovk, _, ivk, mut output) = random_enc_ciphertext(height);

        let cv = output.cv;
        let cmu = output.cmu;
        let ephemeral_key = output.ephemeral_key;
        let out_ciphertext = output.out_ciphertext;
        reencrypt_enc_ciphertext(
            &ovk,
            &cv,
            &cmu,
            &ephemeral_key,
            &mut output.enc_ciphertext,
            &out_ciphertext,
            |pt| pt[1..12].copy_from_slice(&find_valid_diversifier().0),
        );
        assert_eq!(
            try_sapling_compact_note_decryption(
                &test_network(),
                height,
                &ivk,
                &CompactOutputDescription::from_output(&output)
            ),
            None
        );
    }
}

#[test]
fn recovery_with_invalid_ovk() {
    let heights = [activation_height()];

    for &height in heights.iter() {
        let (mut ovk, _, _, output) = random_enc_ciphertext(height);

        ovk.0[0] ^= 0xff;
        assert_eq!(
            try_sapling_output_recovery(&test_network(), height, &ovk, &output),
            None
        );
    }
}

#[test]
fn recovery_with_invalid_ock() {
    let heights = [activation_height()];

    for &height in heights.iter() {
        let (_, _, _, output) = random_enc_ciphertext(height);

        assert_eq!(
            try_sapling_output_recovery_with_ock(
                &test_network(),
                height,
                &OutgoingCipherKey([0u8; 32]),
                &output,
            ),
            None
        );
    }
}

#[test]
fn recovery_with_invalid_cv() {
    let heights = [activation_height()];

    for &height in heights.iter() {
        let (ovk, _, _, mut output) = random_enc_ciphertext(height);
        output.cv = jubjub::ExtendedPoint::random(&mut OsRng).to_bytes();

        assert_eq!(
            try_sapling_output_recovery(&test_network(), height, &ovk, &output),
            None
        );
    }
}

#[test]
fn recovery_with_invalid_cmu() {
    let heights = [activation_height()];

    for &height in heights.iter() {
        let (ovk, ock, _, mut output) = random_enc_ciphertext(height);
        output.cmu = random_bytes_32();

        assert_eq!(
            try_sapling_output_recovery(&test_network(), height, &ovk, &output),
            None
        );
        assert_eq!(
            try_sapling_output_recovery_with_ock(&test_network(), height, &ock, &output),
            None
        );
    }
}

#[test]
fn recovery_with_invalid_epk() {
    let heights = [activation_height()];

    for &height in heights.iter() {
        let (ovk, ock, _, mut output) = random_enc_ciphertext(height);
        output.ephemeral_key = jubjub::ExtendedPoint::random(&mut OsRng).to_bytes();

        assert_eq!(
            try_sapling_output_recovery(&test_network(), height, &ovk, &output),
            None
        );
        assert_eq!(
            try_sapling_output_recovery_with_ock(&test_network(), height, &ock, &output),
            None
        );
    }
}

#[test]
fn recovery_with_invalid_enc_tag() {
    let heights = [activation_height()];

    for &height in heights.iter() {
        let (ovk, ock, _, mut output) = random_enc_ciphertext(height);

        output.enc_ciphertext[ENC_CIPHERTEXT_SIZE - 1] ^= 0xff;
        assert_eq!(
            try_sapling_output_recovery(&test_network(), height, &ovk, &output),
            None
        );
        assert_eq!(
            try_sapling_output_recovery_with_ock(&test_network(), height, &ock, &output),
            None
        );
    }
}

#[test]
fn recovery_with_invalid_out_tag() {
    let heights = [activation_height()];

    for &height in heights.iter() {
        let (ovk, ock, _, mut output) = random_enc_ciphertext(height);

        output.out_ciphertext[OUT_CIPHERTEXT_SIZE - 1] ^= 0xff;
        assert_eq!(
            try_sapling_output_recovery(&test_network(), height, &ovk, &output),
            None
        );
        assert_eq!(
            try_sapling_output_recovery_with_ock(&test_network(), height, &ock, &output),
            None
        );
    }
}

#[test]
fn recovery_with_invalid_version_byte() {
    let canopy_activation_height = activation_height();
    let heights = [
        canopy_activation_height - 1,
        canopy_activation_height,
        canopy_activation_height + ZIP212_GRACE_PERIOD,
    ];
    let leadbytes = [0x02, 0x03, 0x01];

    for (&height, &leadbyte) in heights.iter().zip(leadbytes.iter()) {
        let (ovk, ock, _, mut output) = random_enc_ciphertext(height);

        let cv = output.cv;
        let cmu = output.cmu;
        let ephemeral_key = output.ephemeral_key;
        let out_ciphertext = output.out_ciphertext;
        reencrypt_enc_ciphertext(
            &ovk,
            &cv,
            &cmu,
            &ephemeral_key,
            &mut output.enc_ciphertext,
            &out_ciphertext,
            |pt| pt[0] = leadbyte,
        );
        assert_eq!(
            try_sapling_output_recovery(&test_network(), height, &ovk, &output),
            None
        );
        assert_eq!(
            try_sapling_output_recovery_with_ock(&test_network(), height, &ock, &output),
            None
        );
    }
}

#[test]
fn recovery_with_invalid_diversifier() {
    let heights = [activation_height()];

    for &height in heights.iter() {
        let (ovk, ock, _, mut output) = random_enc_ciphertext(height);

        let cv = output.cv;
        let cmu = output.cmu;
        let ephemeral_key = output.ephemeral_key;
        let out_ciphertext = output.out_ciphertext;
        reencrypt_enc_ciphertext(
            &ovk,
            &cv,
            &cmu,
            &ephemeral_key,
            &mut output.enc_ciphertext,
            &out_ciphertext,
            |pt| pt[1..12].copy_from_slice(&find_invalid_diversifier().0),
        );
        assert_eq!(
            try_sapling_output_recovery(&test_network(), height, &ovk, &output),
            None
        );
        assert_eq!(
            try_sapling_output_recovery_with_ock(&test_network(), height, &ock, &output),
            None
        );
    }
}

#[test]
fn recovery_with_incorrect_diversifier() {
    let heights = [activation_height()];

    for &height in heights.iter() {
        let (ovk, ock, _, mut output) = random_enc_ciphertext(height);

        let cv = output.cv;
        let cmu = output.cmu;
        let ephemeral_key = output.ephemeral_key;
        let out_ciphertext = output.out_ciphertext;
        reencrypt_enc_ciphertext(
            &ovk,
            &cv,
            &cmu,
            &ephemeral_key,
            &mut output.enc_ciphertext,
            &out_ciphertext,
            |pt| pt[1..12].copy_from_slice(&find_valid_diversifier().0),
        );
        assert_eq!(
            try_sapling_output_recovery(&test_network(), height, &ovk, &output),
            None
        );
        assert_eq!(
            try_sapling_output_recovery_with_ock(&test_network(), height, &ock, &output),
            None
        );
    }
}

#[test]
fn recovery_with_invalid_pk_d() {
    // An outgoing plaintext claiming the identity as the transmission key
    // must be rejected; such an output cannot be built through the library
    // (addresses refuse the identity), so it is assembled by hand here.
    let height = activation_height();
    let diversifier = default_diversifier();
    let g_d = diversifier.g_d().unwrap();
    let esk = jubjub::Fr::random(&mut OsRng).to_repr();
    let epk = (jubjub::SubgroupPoint::from_bytes(&g_d).unwrap()
        * jubjub::Fr::from_repr(esk).unwrap())
    .to_bytes();
    let pk_d = jubjub::SubgroupPoint::identity().to_bytes();

    let asset_type = AssetType::new(b"BTC").unwrap();
    let mut plaintext = [0u8; NOTE_PLAINTEXT_SIZE];
    plaintext[0] = 0x02;
    plaintext[1..12].copy_from_slice(&diversifier.0);
    plaintext[12..20].copy_from_slice(&100u64.to_le_bytes());
    plaintext[20..52].copy_from_slice(asset_type.get_identifier());
    plaintext[52..84].copy_from_slice(&random_bytes_32());

    let shared_secret = sapling_ka_agree(&esk, &pk_d);
    let key = kdf_sapling(&shared_secret, &epk);
    let enc = ChaCha20Poly1305::new(key[..].into())
        .encrypt([0u8; 12][..].into(), &plaintext[..])
        .unwrap();
    let mut enc_ciphertext = [0u8; ENC_CIPHERTEXT_SIZE];
    enc_ciphertext.copy_from_slice(&enc);

    let cv = jubjub::ExtendedPoint::random(&mut OsRng).to_bytes();
    let cmu = random_bytes_32();
    let ovk = OutgoingViewingKey([0u8; 32]);
    let ock = prf_ock(&ovk, &cv, &cmu, &epk);

    let mut op = [0u8; OUT_PLAINTEXT_SIZE];
    op[0..32].copy_from_slice(&pk_d);
    op[32..64].copy_from_slice(&esk);
    let out = ChaCha20Poly1305::new(ock.0[..].into())
        .encrypt([0u8; 12][..].into(), &op[..])
        .unwrap();
    let mut out_ciphertext = [0u8; OUT_CIPHERTEXT_SIZE];
    out_ciphertext.copy_from_slice(&out);

    let output = OutputDescription { cv, cmu, ephemeral_key: epk, enc_ciphertext, out_ciphertext };

    assert_eq!(
        try_sapling_output_recovery(&test_network(), height, &ovk, &output),
        None
    );
    assert_eq!(
        try_sapling_output_recovery_with_ock(&test_network(), height, &ock, &output),
        None
    );
}

#[test]
fn test_note_encryption() {
    let height = activation_height();
    let ivk = random_ivk();
    let (ovk, ock, output, note, to, memo) = random_enc_ciphertext_with(height, &ivk);

    match try_sapling_note_decryption(&test_network(), height, &ivk, &output) {
        Some((decrypted_note, decrypted_to, decrypted_memo)) => {
            assert_eq!(decrypted_note, note);
            assert_eq!(decrypted_to, to);
            assert_eq!(decrypted_memo, memo);
        }
        None => panic!("Note decryption failed"),
    }

    match try_sapling_compact_note_decryption(
        &test_network(),
        height,
        &ivk,
        &CompactOutputDescription::from_output(&output),
    ) {
        Some((decrypted_note, decrypted_to)) => {
            assert_eq!(decrypted_note, note);
            assert_eq!(decrypted_to, to);
        }
        None => panic!("Compact note decryption failed"),
    }

    match try_sapling_output_recovery(&test_network(), height, &ovk, &output) {
        Some((decrypted_note, decrypted_to, decrypted_memo)) => {
            assert_eq!(decrypted_note, note);
            assert_eq!(decrypted_to, to);
            assert_eq!(decrypted_memo, memo);
        }
        None => panic!("Output recovery failed"),
    }

    match try_sapling_output_recovery_with_ock(&test_network(), height, &ock, &output) {
        Some((decrypted_note, decrypted_to, decrypted_memo)) => {
            assert_eq!(decrypted_note, note);
            assert_eq!(decrypted_to, to);
            assert_eq!(decrypted_memo, memo);
        }
        None => panic!("Output recovery with ock failed"),
    }
}

#[test]
fn batching() {
    let height = activation_height();

    let invalid_ivk = random_ivk();
    let valid_ivk = random_ivk();
    let outputs: Vec<_> = (0..10)
        .map(|_| {
            (
                SaplingDomain::for_height(test_network(), height),
                random_enc_ciphertext_with(height, &valid_ivk).2,
            )
        })
        .collect();

    let ivks = vec![invalid_ivk.clone(), valid_ivk.clone()];
    let res = batch_try_note_decryption(&ivks, &outputs);
    assert_eq!(res.len(), 20);
    // The batched trial decryptions with invalid_ivk failed.
    assert_eq!(&res[..10], &vec![None; 10][..]);
    for (result, (_, output)) in res[10..].iter().zip(outputs.iter()) {
        // Confirm that the outputs should indeed have failed with invalid_ivk.
        assert_eq!(
            try_sapling_note_decryption(&test_network(), height, &invalid_ivk, output),
            None
        );

        // Confirm the successful batched trial decryptions gave the same result.
        assert!(result.is_some());
        assert_eq!(
            result,
            &try_sapling_note_decryption(&test_network(), height, &valid_ivk, output)
        );
    }
}
