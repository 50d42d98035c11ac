use curv::arithmetic::Converter;
use curv::cryptographic_primitives::secret_sharing::feldman_vss::VerifiableSS;
use curv::elliptic::curves::secp256_k1::Secp256k1;
use curv::elliptic::curves::{Point, Scalar};
use curv::BigInt;
use multi_party_ecdsa::protocols::multi_party_ecdsa::gg_2020::party_i;
use multi_party_ecdsa::utilities::mta::MessageA;
use threshold_ecdsa::curve::{CurvePoint, CurveScalar};
use threshold_ecdsa::errors::{Culprit, ErrorKind, Stage, StageError};
use threshold_ecdsa::keygen::{
    secp256k1_construct_private_key, secp256k1_keygen_stage1, secp256k1_keygen_stage2,
    secp256k1_keygen_stage3, secp256k1_keygen_stage4, Secp256k1ConstructPrivateKeyInput,
    Secp256k1KeyGenStage1Input, Secp256k1KeyGenStage1Output, Secp256k1KeyGenStage2Input,
    Secp256k1KeyGenStage2Output, Secp256k1KeyGenStage3Input, Secp256k1KeyGenStage3Output,
    Secp256k1KeyGenStage4Input,
};
use threshold_ecdsa::material::{CompletedOfflineStage, LocalKey, SignatureRecid};
use threshold_ecdsa::tweak::{secp256k1_tweak_key, Secp256k1TweakKeyInput};
use threshold_ecdsa::online::{
    secp256k1_sign_stage8, secp256k1_sign_stage9, verify_signature, Secp256k1SignStage8Input,
    Secp256k1SignStage8Output, Secp256k1SignStage9Input,
};
use threshold_ecdsa::signing::{
    secp256k1_sign_stage1, secp256k1_sign_stage2, secp256k1_sign_stage3, secp256k1_sign_stage4,
    secp256k1_sign_stage5, secp256k1_sign_stage6, secp256k1_sign_stage7,
    Secp256k1SignStage1Input, Secp256k1SignStage1Output, Secp256k1SignStage2Input,
    Secp256k1SignStage2Output, Secp256k1SignStage3Input, Secp256k1SignStage3Output,
    Secp256k1SignStage4Input, Secp256k1SignStage5Input, Secp256k1SignStage5Output,
    Secp256k1SignStage6Input, Secp256k1SignStage6Output, Secp256k1SignStage7Input,
};

struct Generated {
    t: u16,
    n: u16,
    first: Vec<Secp256k1KeyGenStage1Output>,
    second: Vec<Secp256k1KeyGenStage2Output>,
    third: Vec<Secp256k1KeyGenStage3Output>,
    ys: Vec<CurvePoint>,
    keys: Vec<LocalKey>,
}

fn third_input(g: &Generated, i: usize) -> Secp256k1KeyGenStage3Input {
    Secp256k1KeyGenStage3Input {
        key: g.first[i].key.clone(),
        ys: g.ys.clone(),
        vss_schemes: g.second.iter().map(|o| o.vss.0.clone()).collect(),
        party_shares: g.second.iter().map(|o| o.vss.1[i].clone()).collect(),
        threshold: g.t,
        share_count: g.n,
    }
}

fn fourth_input(g: &Generated) -> Secp256k1KeyGenStage4Input {
    Secp256k1KeyGenStage4Input {
        ys: g.ys.clone(),
        vss_schemes: g.second.iter().map(|o| o.vss.0.clone()).collect(),
        dlog_proofs: g.third.iter().map(|o| o.dlog_proof.clone()).collect(),
        threshold: g.t,
        share_count: g.n,
    }
}

fn second_input(g: &Generated, i: usize) -> Secp256k1KeyGenStage2Input {
    Secp256k1KeyGenStage2Input {
        key: g.first[i].key.clone(),
        bc1s: g.first.iter().map(|o| o.bc1.clone()).collect(),
        decom1s: g.first.iter().map(|o| o.decom1.clone()).collect(),
        threshold: g.t,
        share_count: g.n,
    }
}

fn run_keygen(t: u16, n: u16) -> Generated {
    let first: Vec<_> = (1..=n)
        .map(|index| {
            secp256k1_keygen_stage1(Secp256k1KeyGenStage1Input { index, use_safe_prime: false })
                .unwrap()
        })
        .collect();
    let ys: Vec<_> = first.iter().map(|o| CurvePoint { inner: o.decom1.y_i.clone() }).collect();
    let mut g = Generated { t, n, first, second: vec![], third: vec![], ys, keys: vec![] };
    let count = usize::from(n);
    g.second = (0..count).map(|i| secp256k1_keygen_stage2(second_input(&g, i)).unwrap()).collect();
    g.third = (0..count).map(|i| secp256k1_keygen_stage3(third_input(&g, i)).unwrap()).collect();
    secp256k1_keygen_stage4(fourth_input(&g)).unwrap();
    g.keys = (0..usize::from(n))
        .map(|i| LocalKey {
            paillier_dk: g.first[i].key.inner.dk.clone(),
            pk_vec: g
                .third
                .iter()
                .map(|o| CurvePoint { inner: o.dlog_proof.inner.pk.clone() })
                .collect(),
            keys_linear: g.third[i].shared_key.clone(),
            paillier_key_vec: g.first.iter().map(|o| o.bc1.e.clone()).collect(),
            y_sum_s: g.third[i].shared_key.y.clone(),
            h1_h2_n_tilde_vec: g.first.iter().map(|o| o.bc1.dlog_statement.clone()).collect(),
            vss_scheme: g.second[i].vss.0.clone(),
            i: (i + 1) as u16,
            t,
            n,
        })
        .collect();
    g
}

fn slot_among_peers(signer: usize, peer: usize) -> usize {
    if signer < peer {
        signer
    } else {
        signer - 1
    }
}

struct Session {
    parties: Vec<u16>,
    keys: Vec<LocalKey>,
    first: Vec<Secp256k1SignStage1Output>,
    second: Vec<Secp256k1SignStage2Output>,
    third: Vec<Secp256k1SignStage3Output>,
    delta_inv: Option<CurveScalar>,
    fifth: Vec<Secp256k1SignStage5Output>,
    sixth: Vec<Secp256k1SignStage6Output>,
}

fn received<T: Clone>(lists: &[Vec<T>], signer: usize) -> Vec<T> {
    (0..lists.len())
        .filter(|&peer| peer != signer)
        .map(|peer| lists[peer][slot_among_peers(signer, peer)].clone())
        .collect()
}

fn second_sign_input(s: &Session, i: usize) -> Secp256k1SignStage2Input {
    Secp256k1SignStage2Input {
        index: (i + 1) as u16,
        parties: s.parties.clone(),
        local_key: s.keys[i].clone(),
        m_as: s.first.iter().map(|o| o.m_a.0.clone()).collect(),
        sign_key: s.first[i].sign_key.clone(),
    }
}

fn third_sign_input(s: &Session, i: usize) -> Secp256k1SignStage3Input {
    let gammas: Vec<_> = s.second.iter().map(|o| o.m_b_gammas.clone()).collect();
    let ws: Vec<_> = s.second.iter().map(|o| o.m_b_ws.clone()).collect();
    Secp256k1SignStage3Input {
        index: (i + 1) as u16,
        parties: s.parties.clone(),
        local_key: s.keys[i].clone(),
        sign_key: s.first[i].sign_key.clone(),
        nis: s.second[i].nis.clone(),
        betas: s.second[i].betas.clone(),
        m_b_gammas: received(&gammas, i),
        m_b_ws: received(&ws, i),
    }
}

fn fourth_sign_input(s: &Session) -> Secp256k1SignStage4Input {
    Secp256k1SignStage4Input {
        parties: s.parties.clone(),
        deltas: s.third.iter().map(|o| o.delta_i.clone()).collect(),
        ts: s.third.iter().map(|o| o.t_i.clone()).collect(),
        t_proofs: s.third.iter().map(|o| o.t_i_proof.clone()).collect(),
    }
}

fn fifth_sign_input(s: &Session, i: usize) -> Secp256k1SignStage5Input {
    let gammas: Vec<_> = s.second.iter().map(|o| o.m_b_gammas.clone()).collect();
    Secp256k1SignStage5Input {
        index: (i + 1) as u16,
        parties: s.parties.clone(),
        local_key: s.keys[i].clone(),
        sign_key: s.first[i].sign_key.clone(),
        m_a: s.first[i].m_a.clone(),
        m_b_gammas: received(&gammas, i),
        bc1s: s.first.iter().map(|o| o.bc1.clone()).collect(),
        delta_inv: s.delta_inv.clone().unwrap(),
        decom1s: s.first.iter().map(|o| o.decom1.clone()).collect(),
    }
}

fn sixth_sign_input(s: &Session, i: usize) -> Secp256k1SignStage6Input {
    Secp256k1SignStage6Input {
        index: (i + 1) as u16,
        parties: s.parties.clone(),
        local_key: s.keys[i].clone(),
        m_as: s.first.iter().map(|o| o.m_a.0.clone()).collect(),
        t_i: s.third[i].t_i.clone(),
        l_i: s.third[i].l_i.clone(),
        sigma_i: s.third[i].sigma_i.clone(),
        r: s.fifth[i].r.clone(),
        r_dashes: s.fifth.iter().map(|o| o.r_dash.clone()).collect(),
        phase5_proofss: s.fifth.iter().map(|o| o.phase5_proofs.clone()).collect(),
    }
}

fn sixth_sign_input_after(s: &Session, i: usize) -> Secp256k1SignStage6Input {
    Secp256k1SignStage6Input {
        index: (i + 1) as u16,
        parties: s.parties.clone(),
        local_key: s.keys[i].clone(),
        m_as: s.first.iter().map(|o| o.m_a.0.clone()).collect(),
        t_i: s.third[i].t_i.clone(),
        l_i: s.third[i].l_i.clone(),
        sigma_i: s.third[i].sigma_i.clone(),
        r: s.third[i].t_i.clone(),
        r_dashes: s.third.iter().map(|o| o.t_i.clone()).collect(),
        phase5_proofss: s.third.iter().map(|_| vec![]).collect(),
    }
}

fn completed(s: &Session, i: usize) -> CompletedOfflineStage {
    CompletedOfflineStage {
        index: (i + 1) as u16,
        local_key: s.keys[i].clone(),
        sign_key: s.first[i].sign_key.clone(),
        ts: s.third.iter().map(|o| o.t_i.clone()).collect(),
        r: s.fifth[i].r.clone(),
        sigma_i: s.third[i].sigma_i.clone(),
    }
}

fn seventh_sign_input(s: &Session, i: usize) -> Secp256k1SignStage7Input {
    Secp256k1SignStage7Input {
        ss: s.sixth.iter().map(|o| o.s_i.clone()).collect(),
        homo_elgamal_proofs: s.sixth.iter().map(|o| o.homo_elgamal_proof.clone()).collect(),
        parties: s.parties.clone(),
        completed_offline_stage: completed(s, i),
    }
}

fn open_session(keys: &[LocalKey], parties: &[u16]) -> Session {
    let m = parties.len();
    let keys: Vec<_> = parties.iter().map(|&p| keys[usize::from(p) - 1].clone()).collect();
    let first: Vec<_> = (0..m)
        .map(|i| {
            secp256k1_sign_stage1(Secp256k1SignStage1Input {
                index: (i + 1) as u16,
                parties: parties.to_vec(),
                local_key: keys[i].clone(),
            })
            .unwrap()
        })
        .collect();
    Session {
        parties: parties.to_vec(),
        keys,
        first,
        second: vec![],
        third: vec![],
        delta_inv: None,
        fifth: vec![],
        sixth: vec![],
    }
}

fn run_to_third(keys: &[LocalKey], parties: &[u16]) -> Session {
    let mut s = open_session(keys, parties);
    let m = parties.len();
    s.second = (0..m).map(|i| secp256k1_sign_stage2(second_sign_input(&s, i)).unwrap()).collect();
    s.third = (0..m).map(|i| secp256k1_sign_stage3(third_sign_input(&s, i)).unwrap()).collect();
    s
}

fn run_offline(keys: &[LocalKey], parties: &[u16]) -> Session {
    let mut s = run_to_third(keys, parties);
    let m = parties.len();
    s.delta_inv = Some(secp256k1_sign_stage4(fourth_sign_input(&s)).unwrap().delta_inv);
    s.fifth = (0..m).map(|i| secp256k1_sign_stage5(fifth_sign_input(&s, i)).unwrap()).collect();
    s.sixth = (0..m).map(|i| secp256k1_sign_stage6(sixth_sign_input(&s, i)).unwrap()).collect();
    for i in 0..m {
        secp256k1_sign_stage7(seventh_sign_input(&s, i)).unwrap();
    }
    s
}

fn shares_of(s: &Session, message: &[u8]) -> Vec<Secp256k1SignStage8Output> {
    (0..s.parties.len())
        .map(|i| {
            secp256k1_sign_stage8(Secp256k1SignStage8Input {
                completed_offline_stage: completed(s, i),
                message: message.to_vec(),
            })
            .unwrap()
        })
        .collect()
}

fn sign(s: &Session, message: &[u8]) -> Vec<SignatureRecid> {
    let shares = shares_of(s, message);
    (0..shares.len())
        .map(|i| {
            secp256k1_sign_stage9(Secp256k1SignStage9Input {
                local_signature: shares[i].local_signature.clone(),
                partial_signatures: (0..shares.len())
                    .filter(|&j| j != i)
                    .map(|j| shares[j].partial_signature.clone())
                    .collect(),
            })
            .unwrap()
            .signature
        })
        .collect()
}

fn verifies(signature: &SignatureRecid, y: &CurvePoint, message: &[u8]) -> bool {
    let sig = party_i::SignatureRecid {
        r: signature.r.inner.clone(),
        s: signature.s.inner.clone(),
        recid: signature.recid,
    };
    let outside = party_i::verify(&sig, &y.inner, &BigInt::from_bytes(message)).is_ok();
    assert_eq!(verify_signature(signature, y, &message.to_vec()), outside);
    outside
}

#[test]
fn verification_refuses_what_has_no_answer() {
    let one = Scalar::<Secp256k1>::from(1u16);
    let g = Point::<Secp256k1>::generator().to_point();
    let zero_s = SignatureRecid {
        r: CurveScalar { inner: one.clone() },
        s: CurveScalar { inner: Scalar::<Secp256k1>::zero() },
        recid: 0,
    };
    assert!(!verify_signature(&zero_s, &CurvePoint { inner: g.clone() }, &b"hello".to_vec()));
    let m = Scalar::<Secp256k1>::from(&BigInt::from_bytes(b"hello"));
    let opposite = Point::<Secp256k1>::generator() * (Scalar::<Secp256k1>::zero() - &m);
    let pointless = SignatureRecid {
        r: CurveScalar { inner: one.clone() },
        s: CurveScalar { inner: one.clone() },
        recid: 0,
    };
    assert!(!verify_signature(&pointless, &CurvePoint { inner: opposite }, &b"hello".to_vec()));
    assert!(!verify_signature(&pointless, &CurvePoint { inner: g }, &b"hello".to_vec()));
}

#[test]
fn two_of_three_signs_hello() {
    let g = run_keygen(1, 3);
    let session = run_offline(&g.keys, &[1, 2]);
    let signatures = sign(&session, b"hello");
    assert_eq!(signatures.len(), 2);
    for signature in signatures.iter() {
        assert!(verifies(signature, &g.keys[0].y_sum_s, b"hello"));
        assert!(signature.recid <= 1);
        assert!(!verifies(signature, &g.keys[0].pk_vec[0], b"hello"));
        assert!(!verifies(signature, &g.keys[0].pk_vec[1], b"hello"));
        assert!(!verifies(signature, &g.keys[0].pk_vec[2], b"hello"));
        assert!(!verifies(signature, &g.keys[0].y_sum_s, b"hellp"));
    }
    assert_eq!(signatures[0].r.inner, signatures[1].r.inner);
    assert_eq!(signatures[0].s.inner, signatures[1].s.inner);
    let x = session.fifth[0].r.inner.x_coord().unwrap();
    assert_eq!(signatures[0].r.inner, Scalar::<Secp256k1>::from_bigint(&x));
    assert!(!signatures[0].s.inner.is_zero());
    assert_eq!(signatures[0].recid, signatures[1].recid);
    let secret = &g.first[0].key.inner.u_i + &g.first[1].key.inner.u_i + &g.first[2].key.inner.u_i;
    let restricted = &session.first[0].sign_key.w_i.inner + &session.first[1].sign_key.w_i.inner;
    assert_eq!(restricted, secret);
    assert_ne!(session.first[0].sign_key.w_i.inner, g.keys[0].keys_linear.x_i.inner);
    let gammas = &session.first[0].decom1.g_gamma_i + &session.first[1].decom1.g_gamma_i;
    assert_eq!(session.fifth[0].r.inner, gammas * &session.delta_inv.clone().unwrap().inner);
    assert_eq!(session.fifth[0].r.inner, session.fifth[1].r.inner);
    for (i, first) in session.first.iter().enumerate() {
        assert_eq!(first.decom1.g_gamma_i, first.sign_key.g_gamma_i.inner);
        let own = &session.keys[i].paillier_key_vec[usize::from(session.keys[i].i) - 1];
        let again = MessageA::a_with_predefined_randomness(
            &first.sign_key.k_i.inner,
            own,
            &first.m_a.1,
            &[],
        );
        assert_eq!(first.m_a.0.c, again.c);
        let other = &session.keys[i].paillier_key_vec[2];
        let wrong = MessageA::a_with_predefined_randomness(
            &first.sign_key.k_i.inner,
            other,
            &first.m_a.1,
            &[],
        );
        assert_ne!(first.m_a.0.c, wrong.c);
    }
    for (i, second) in g.second.iter().enumerate() {
        assert_eq!(g.first[i].decom1.y_i, g.first[i].key.inner.y_i);
        let sharing = VerifiableSS {
            parameters: second.vss.0.parameters.clone(),
            commitments: second.vss.0.commitments.iter().map(|p| p.inner.clone()).collect(),
        };
        for (k, share) in second.vss.1.iter().enumerate() {
            assert!(sharing.validate_share(&share.inner, (k + 1) as u16).is_ok());
        }
        assert!(sharing.validate_share(&second.vss.1[0].inner, 2).is_err());
        let g_u = Point::<Secp256k1>::generator() * &g.first[i].key.inner.u_i;
        assert_eq!(second.vss.0.commitments[0].inner, g_u);
        let g_x = Point::<Secp256k1>::generator() * &g.third[i].shared_key.x_i.inner;
        assert_eq!(g.third[i].dlog_proof.inner.pk, g_x);
    }
    let all = &session.sixth[0].s_i.inner + &session.sixth[1].s_i.inner;
    assert_eq!(all, g.keys[0].y_sum_s.inner);
    let dashes = &session.fifth[0].r_dash.inner + &session.fifth[1].r_dash.inner;
    assert_eq!(dashes, Point::<Secp256k1>::generator().to_point());
}

fn failure<T>(result: Result<T, StageError>) -> StageError {
    match result {
        Ok(_) => panic!("the round accepted what it had to refuse"),
        Err(e) => e,
    }
}

fn shape(stage: Stage) -> StageError {
    StageError { stage, kind: ErrorKind::ProtocolShape, culprit: Culprit::Unknown }
}

fn malformed(stage: Stage) -> StageError {
    StageError { stage, kind: ErrorKind::MalformedInput, culprit: Culprit::Unknown }
}

fn rejected(stage: Stage) -> StageError {
    StageError { stage, kind: ErrorKind::Verification, culprit: Culprit::Unknown }
}

fn malformed_by(stage: Stage, party: u16) -> StageError {
    StageError { stage, kind: ErrorKind::MalformedInput, culprit: Culprit::Party(party) }
}

fn blamed(stage: Stage, party: u16) -> StageError {
    StageError { stage, kind: ErrorKind::Verification, culprit: Culprit::Party(party) }
}

#[test]
fn keygen_refuses_parameters_that_do_not_fit() {
    let none = secp256k1_keygen_stage1(Secp256k1KeyGenStage1Input {
        index: 0,
        use_safe_prime: false,
    });
    assert_eq!(failure(none), shape(Stage::KeyGen1));
    let one = secp256k1_keygen_stage1(Secp256k1KeyGenStage1Input {
        index: 2,
        use_safe_prime: false,
    })
    .unwrap();
    assert_eq!(one.key.inner.party_index, 2);
    let input = |threshold: u16, share_count: u16, copies: usize| Secp256k1KeyGenStage2Input {
        key: one.key.clone(),
        bc1s: vec![one.bc1.clone(); copies],
        decom1s: vec![one.decom1.clone(); copies],
        threshold,
        share_count,
    };
    assert_eq!(failure(secp256k1_keygen_stage2(input(3, 3, 3))), shape(Stage::KeyGen2));
    assert_eq!(failure(secp256k1_keygen_stage2(input(0, 1, 1))), shape(Stage::KeyGen2));
    assert_eq!(failure(secp256k1_keygen_stage2(input(1, 3, 2))), malformed(Stage::KeyGen2));
    let distributed = secp256k1_keygen_stage2(input(1, 3, 3)).unwrap().vss;
    assert_eq!(distributed.0.parameters.threshold, 1);
    assert_eq!(distributed.0.parameters.share_count, 3);
    assert_eq!(distributed.0.commitments.len(), 2);
    assert_eq!(distributed.1.len(), 3);
    assert_eq!(distributed.2, 2);
    let y = CurvePoint { inner: one.decom1.y_i.clone() };
    let third = |threshold: u16, schemes: usize| Secp256k1KeyGenStage3Input {
        key: one.key.clone(),
        ys: vec![y.clone(); 3],
        vss_schemes: vec![distributed.0.clone(); schemes],
        party_shares: distributed.1.clone(),
        threshold,
        share_count: 3,
    };
    assert_eq!(failure(secp256k1_keygen_stage3(third(3, 3))), shape(Stage::KeyGen3));
    assert_eq!(failure(secp256k1_keygen_stage3(third(1, 2))), malformed(Stage::KeyGen3));
    assert_eq!(failure(secp256k1_keygen_stage3(third(2, 3))), malformed(Stage::KeyGen3));
    let fourth = |threshold: u16, share_count: u16| Secp256k1KeyGenStage4Input {
        ys: vec![y.clone(); 3],
        vss_schemes: vec![distributed.0.clone(); 3],
        dlog_proofs: vec![],
        threshold,
        share_count,
    };
    assert_eq!(failure(secp256k1_keygen_stage4(fourth(3, 3))), shape(Stage::KeyGen4));
    assert_eq!(failure(secp256k1_keygen_stage4(fourth(1, 3))), malformed(Stage::KeyGen4));
}

#[test]
fn keygen_refuses_what_was_tampered_with() {
    let g = run_keygen(1, 3);
    let mut second = second_input(&g, 0);
    second.decom1s.swap(1, 2);
    assert_eq!(failure(secp256k1_keygen_stage2(second)), blamed(Stage::KeyGen2, 2));
    let mut second = second_input(&g, 0);
    second.bc1s[2].com = &second.bc1s[2].com + BigInt::from(1);
    assert_eq!(failure(secp256k1_keygen_stage2(second)), blamed(Stage::KeyGen2, 3));
    let mut second = second_input(&g, 0);
    second.bc1s[0].correct_key_proof.sigma_vec.swap(0, 1);
    assert_eq!(failure(secp256k1_keygen_stage2(second)), blamed(Stage::KeyGen2, 1));
    let mut second = second_input(&g, 0);
    second.bc1s[2].dlog_statement.g = BigInt::from(0);
    assert_eq!(failure(secp256k1_keygen_stage2(second)), malformed_by(Stage::KeyGen2, 3));
    let mut second = second_input(&g, 0);
    second.bc1s[1].dlog_statement.ni = second.bc1s[1].dlog_statement.N.clone();
    second.bc1s[2].dlog_statement.g = BigInt::from(0);
    assert_eq!(failure(secp256k1_keygen_stage2(second)), malformed_by(Stage::KeyGen2, 2));
    let mut second = second_input(&g, 1);
    second.bc1s[1].correct_key_proof.sigma_vec.pop();
    assert_eq!(failure(secp256k1_keygen_stage2(second)), malformed_by(Stage::KeyGen2, 2));
    let mut second = second_input(&g, 1);
    second.bc1s[0].e.n = BigInt::from(15);
    assert_eq!(failure(secp256k1_keygen_stage2(second)), malformed_by(Stage::KeyGen2, 1));
    let mut second = second_input(&g, 1);
    second.bc1s[0].e.n = BigInt::from(0) - &second.bc1s[0].e.n;
    assert_eq!(failure(secp256k1_keygen_stage2(second)), malformed_by(Stage::KeyGen2, 1));
    let mut second = second_input(&g, 2);
    second.bc1s[0].dlog_statement.N = &second.bc1s[0].dlog_statement.N * BigInt::from(4);
    assert_eq!(failure(secp256k1_keygen_stage2(second)), malformed_by(Stage::KeyGen2, 1));
    let mut second = second_input(&g, 2);
    second.bc1s[0].dlog_statement.N = BigInt::from(0) - &second.bc1s[0].dlog_statement.N;
    assert_eq!(failure(secp256k1_keygen_stage2(second)), malformed_by(Stage::KeyGen2, 1));
    let mut second = second_input(&g, 2);
    second.bc1s[2].composite_dlog_proof_base_h1.y = BigInt::from(-1);
    assert_eq!(failure(secp256k1_keygen_stage2(second)), malformed_by(Stage::KeyGen2, 3));
    let mut second = second_input(&g, 2);
    second.bc1s[2].composite_dlog_proof_base_h2.y = BigInt::from(-1);
    assert_eq!(failure(secp256k1_keygen_stage2(second)), malformed_by(Stage::KeyGen2, 3));
    let mut second = second_input(&g, 2);
    second.bc1s[2].composite_dlog_proof_base_h2.y = BigInt::from(1);
    assert_eq!(failure(secp256k1_keygen_stage2(second)), blamed(Stage::KeyGen2, 3));
    let mut third = third_input(&g, 1);
    third.party_shares.swap(0, 2);
    assert_eq!(failure(secp256k1_keygen_stage3(third)), blamed(Stage::KeyGen3, 1));
    let mut third = third_input(&g, 1);
    third.ys.swap(1, 2);
    assert_eq!(failure(secp256k1_keygen_stage3(third)), blamed(Stage::KeyGen3, 2));
    let mut third = third_input(&g, 1);
    third.party_shares[2].inner = &third.party_shares[2].inner + Scalar::<Secp256k1>::from(1u16);
    assert_eq!(failure(secp256k1_keygen_stage3(third)), blamed(Stage::KeyGen3, 3));
    let mut fourth = fourth_input(&g);
    fourth.dlog_proofs.swap(0, 1);
    assert_eq!(failure(secp256k1_keygen_stage4(fourth)), rejected(Stage::KeyGen4));
    let mut fourth = fourth_input(&g);
    fourth.dlog_proofs[2].inner.challenge_response =
        &fourth.dlog_proofs[2].inner.challenge_response + Scalar::<Secp256k1>::from(1u16);
    assert_eq!(failure(secp256k1_keygen_stage4(fourth)), blamed(Stage::KeyGen4, 3));
    let sum = &g.ys[0].inner + &g.ys[1].inner + &g.ys[2].inner;
    for key in g.keys.iter() {
        assert_eq!(key.y_sum_s.inner, sum);
        assert!(key.is_well_formed());
    }
    let received = &g.second[0].vss.1[1].inner + &g.second[1].vss.1[1].inner
        + &g.second[2].vss.1[1].inner;
    assert_eq!(g.keys[1].keys_linear.x_i.inner, received);
}

fn reconstruct(g: &Generated, parties: &[u16]) -> Result<CurveScalar, StageError> {
    secp256k1_construct_private_key(Secp256k1ConstructPrivateKeyInput {
        vss_scheme: g.keys[0].vss_scheme.clone(),
        parties: parties.to_vec(),
        xs: parties
            .iter()
            .map(|&p| g.keys[usize::from(p.clamp(1, g.n)) - 1].keys_linear.x_i.clone())
            .collect(),
    })
}

#[test]
fn every_subset_above_the_threshold_reconstructs_the_secret() {
    let g = run_keygen(1, 3);
    let secret = &g.first[0].key.inner.u_i + &g.first[1].key.inner.u_i + &g.first[2].key.inner.u_i;
    for parties in [vec![1, 2], vec![1, 3], vec![2, 3], vec![3, 1], vec![1, 2, 3]] {
        assert_eq!(reconstruct(&g, &parties).unwrap().inner, secret);
    }
    assert_eq!(Point::<Secp256k1>::generator() * &secret, g.keys[0].y_sum_s.inner);
    assert_eq!(failure(reconstruct(&g, &[2])), shape(Stage::Reconstruct));
    assert_eq!(failure(reconstruct(&g, &[])), shape(Stage::Reconstruct));
    assert_eq!(failure(reconstruct(&g, &[2, 2])), shape(Stage::Reconstruct));
    assert_eq!(failure(reconstruct(&g, &[0, 2])), shape(Stage::Reconstruct));
    assert_eq!(failure(reconstruct(&g, &[1, 5])), shape(Stage::Reconstruct));
    assert_eq!(failure(reconstruct(&g, &[4, 2])), shape(Stage::Reconstruct));
    let mut short = g.keys[0].vss_scheme.clone();
    short.parameters.threshold = 0;
    for party in 1..=3u16 {
        let alone = secp256k1_construct_private_key(Secp256k1ConstructPrivateKeyInput {
            vss_scheme: short.clone(),
            parties: vec![party],
            xs: vec![g.keys[usize::from(party) - 1].keys_linear.x_i.clone()],
        })
        .unwrap();
        assert_ne!(alone.inner, secret);
    }
    let uneven = secp256k1_construct_private_key(Secp256k1ConstructPrivateKeyInput {
        vss_scheme: g.keys[0].vss_scheme.clone(),
        parties: vec![1, 2],
        xs: vec![g.keys[0].keys_linear.x_i.clone()],
    });
    assert_eq!(failure(uneven), malformed(Stage::Reconstruct));
}

#[test]
fn tweak_moves_every_view_of_the_public_key() {
    let g = run_keygen(1, 3);
    let il = Scalar::<Secp256k1>::from(7u16);
    let il_point = Point::<Secp256k1>::generator() * &il;
    for (i, parent) in g.keys.iter().enumerate() {
        let index = (i + 1) as u16;
        let child = secp256k1_tweak_key(Secp256k1TweakKeyInput {
            index,
            local_key: parent.clone(),
            il: CurveScalar { inner: il.clone() },
        })
        .unwrap()
        .new_local_key;
        assert_eq!(child.y_sum_s.inner, &parent.y_sum_s.inner + &il_point);
        assert_eq!(child.keys_linear.y.inner, &parent.keys_linear.y.inner + &il_point);
        assert_eq!(child.pk_vec[0].inner, &parent.pk_vec[0].inner + &il_point);
        assert_eq!(child.pk_vec[1].inner, parent.pk_vec[1].inner);
        assert_eq!(child.pk_vec[2].inner, parent.pk_vec[2].inner);
        assert_eq!(
            child.vss_scheme.commitments[0].inner,
            &parent.vss_scheme.commitments[0].inner + &il_point
        );
        assert_eq!(child.vss_scheme.commitments[1].inner, parent.vss_scheme.commitments[1].inner);
        if index == 1 {
            assert_eq!(child.keys_linear.x_i.inner, &parent.keys_linear.x_i.inner + &il);
            assert_ne!(child.keys_linear.x_i.inner, parent.keys_linear.x_i.inner);
        } else {
            assert_eq!(child.keys_linear.x_i.inner, parent.keys_linear.x_i.inner);
        }
        assert_eq!(child.paillier_key_vec, parent.paillier_key_vec);
        assert_eq!((child.i, child.t, child.n), (parent.i, parent.t, parent.n));
        assert!(child.is_well_formed());
        assert_eq!(parent.y_sum_s.inner, g.keys[0].y_sum_s.inner);
    }
    let tweak = |index: u16, key: LocalKey| {
        secp256k1_tweak_key(Secp256k1TweakKeyInput {
            index,
            local_key: key,
            il: CurveScalar { inner: il.clone() },
        })
    };
    assert_eq!(failure(tweak(0, g.keys[0].clone())), shape(Stage::Tweak));
    assert_eq!(failure(tweak(4, g.keys[0].clone())), shape(Stage::Tweak));
    let mut broken = g.keys[0].clone();
    broken.pk_vec.clear();
    assert_eq!(failure(tweak(1, broken)), malformed(Stage::Tweak));
    let mut broken = g.keys[0].clone();
    broken.vss_scheme.commitments.clear();
    assert_eq!(failure(tweak(1, broken)), malformed(Stage::Tweak));
}

#[test]
fn two_signing_runs_both_verify() {
    let g = run_keygen(1, 3);
    let one = sign(&run_offline(&g.keys, &[1, 3]), b"hello");
    let other = sign(&run_offline(&g.keys, &[1, 3]), b"hello");
    assert!(verifies(&one[0], &g.keys[0].y_sum_s, b"hello"));
    assert!(verifies(&other[0], &g.keys[0].y_sum_s, b"hello"));
    assert_ne!(one[0].r.inner, other[0].r.inner);
}

#[test]
fn three_signers_of_three_sign() {
    let g = run_keygen(1, 3);
    let session = run_offline(&g.keys, &[3, 1, 2]);
    assert_eq!(session.second[1].m_b_gammas.len(), 2);
    assert_eq!(session.second[1].betas.len(), 2);
    assert_eq!(session.fifth[2].phase5_proofs.len(), 2);
    let r = &session.fifth[0].r.inner;
    assert_eq!(session.fifth[0].r_dash.inner, r * &session.first[0].sign_key.k_i.inner);
    assert_eq!(session.sixth[0].s_i.inner, r * &session.third[0].sigma_i.inner);
    let signatures = sign(&session, b"a longer message than the first one");
    for signature in signatures.iter() {
        assert!(verifies(signature, &g.keys[2].y_sum_s, b"a longer message than the first one"));
    }
}

#[test]
fn stage3_blames_the_peer_whose_response_fails() {
    let g = run_keygen(1, 3);
    let mut s = open_session(&g.keys, &[1, 2, 3]);
    s.second = (0..3).map(|i| secp256k1_sign_stage2(second_sign_input(&s, i)).unwrap()).collect();
    let clean = third_sign_input(&s, 0);
    let mut input = clean.clone();
    input.m_b_gammas[1].c = &input.m_b_gammas[1].c + BigInt::from(1);
    assert_eq!(failure(secp256k1_sign_stage3(input)), blamed(Stage::Sign3, 3));
    let mut input = clean.clone();
    input.m_b_ws[0].c = &input.m_b_ws[0].c + BigInt::from(1);
    input.m_b_gammas[1].c = &input.m_b_gammas[1].c + BigInt::from(1);
    assert_eq!(failure(secp256k1_sign_stage3(input)), blamed(Stage::Sign3, 2));
    let mut input = clean.clone();
    input.m_b_ws[1] = input.m_b_gammas[1].clone();
    assert_eq!(failure(secp256k1_sign_stage3(input)), blamed(Stage::Sign3, 3));
    let mut input = third_sign_input(&s, 1);
    input.m_b_ws.swap(0, 1);
    assert_eq!(failure(secp256k1_sign_stage3(input)), blamed(Stage::Sign3, 1));
    let out = secp256k1_sign_stage3(clean.clone()).unwrap();
    assert_eq!(out.t_i.inner, out.t_i_proof.inner.com);
    let h = Point::<Secp256k1>::base_point2();
    let g = Point::<Secp256k1>::generator();
    assert_eq!(out.t_i.inner, g * &out.sigma_i.inner + h * &out.l_i.inner);
    let k = &clean.sign_key.k_i.inner;
    let alphas = &out.delta_i.inner - k * &clean.sign_key.gamma_i.inner
        - &clean.betas[0].inner
        - &clean.betas[1].inner;
    let at_peers = &s.second[1].betas[0].inner + &s.second[2].betas[0].inner;
    let products = k * &s.first[1].sign_key.gamma_i.inner + k * &s.first[2].sign_key.gamma_i.inner;
    assert_eq!(alphas + at_peers, products);
}

#[test]
fn stage2_blames_the_peer_whose_request_fails() {
    let g = run_keygen(1, 3);
    let s = open_session(&g.keys, &[2, 3, 1]);
    let clean = second_sign_input(&s, 1);
    let mut input = clean.clone();
    input.m_as[2].c = &input.m_as[2].c + BigInt::from(1);
    assert_eq!(failure(secp256k1_sign_stage2(input)), blamed(Stage::Sign2, 1));
    let mut input = clean.clone();
    input.m_as.swap(0, 2);
    assert_eq!(failure(secp256k1_sign_stage2(input)), blamed(Stage::Sign2, 2));
    let mut input = clean.clone();
    input.m_as[1].c = &input.m_as[1].c + BigInt::from(1);
    let out = secp256k1_sign_stage2(input).unwrap();
    let g_gamma = Point::<Secp256k1>::generator() * &clean.sign_key.gamma_i.inner;
    let g_w = Point::<Secp256k1>::generator() * &clean.sign_key.w_i.inner;
    for j in 0..2 {
        assert_eq!(out.m_b_gammas[j].b_proof.pk, g_gamma);
        assert_eq!(out.m_b_ws[j].b_proof.pk, g_w);
    }
    assert_eq!(clean.sign_key.g_w_i.inner, g_w);
    assert_eq!(clean.sign_key.g_gamma_i.inner, g_gamma);
}

#[test]
fn later_rounds_refuse_what_was_tampered_with() {
    let g = run_keygen(1, 3);
    let s = run_offline(&g.keys, &[2, 3]);
    let mut fourth = fourth_sign_input(&s);
    fourth.ts.swap(0, 1);
    assert_eq!(failure(secp256k1_sign_stage4(fourth)), blamed(Stage::Sign4, 2));
    let mut fourth = fourth_sign_input(&s);
    fourth.t_proofs[1] = fourth.t_proofs[0].clone();
    assert_eq!(failure(secp256k1_sign_stage4(fourth)), blamed(Stage::Sign4, 3));
    let mut fourth = fourth_sign_input(&s);
    fourth.deltas[1].inner = Scalar::<Secp256k1>::zero() - &fourth.deltas[0].inner;
    assert_eq!(failure(secp256k1_sign_stage4(fourth)), rejected(Stage::Sign4));
    let fourth = fourth_sign_input(&s);
    let sum = &fourth.deltas[0].inner + &fourth.deltas[1].inner;
    let inverse = secp256k1_sign_stage4(fourth).unwrap().delta_inv;
    assert_eq!(&inverse.inner * &sum, Scalar::<Secp256k1>::from(1u16));
    let mut fifth = fifth_sign_input(&s, 0);
    fifth.decom1s.swap(0, 1);
    assert_eq!(failure(secp256k1_sign_stage5(fifth)), blamed(Stage::Sign5, 3));
    let mut fifth = fifth_sign_input(&s, 1);
    fifth.bc1s[0].com = &fifth.bc1s[0].com + BigInt::from(1);
    assert_eq!(failure(secp256k1_sign_stage5(fifth)), blamed(Stage::Sign5, 2));
    let mut sixth = sixth_sign_input(&s, 0);
    sixth.r_dashes.swap(0, 1);
    assert_eq!(failure(secp256k1_sign_stage6(sixth)), blamed(Stage::Sign6, 2));
    let mut sixth = sixth_sign_input(&s, 0);
    sixth.m_as[1].c = &sixth.m_as[1].c + BigInt::from(1);
    assert_eq!(failure(secp256k1_sign_stage6(sixth)), blamed(Stage::Sign6, 3));
    let mut sixth = sixth_sign_input(&s, 0);
    let mut fields = serde_json::to_value(&sixth.phase5_proofss[1][0]).unwrap();
    fields["z"] = serde_json::to_value(BigInt::from(0)).unwrap();
    sixth.phase5_proofss[1][0] = serde_json::from_value(fields).unwrap();
    assert_eq!(failure(secp256k1_sign_stage6(sixth)), blamed(Stage::Sign6, 3));
    let mut sixth = sixth_sign_input(&s, 0);
    sixth.m_as[0].c = BigInt::from(0);
    assert_eq!(failure(secp256k1_sign_stage6(sixth)), blamed(Stage::Sign6, 2));
    let mut sixth = sixth_sign_input(&s, 0);
    sixth.phase5_proofss[1].clear();
    assert_eq!(failure(secp256k1_sign_stage6(sixth)), blamed(Stage::Sign6, 3));
    let mut sixth = sixth_sign_input(&s, 0);
    sixth.r_dashes = vec![sixth.r_dashes[0].clone(); 2];
    sixth.m_as = vec![sixth.m_as[0].clone(); 2];
    sixth.phase5_proofss = vec![sixth.phase5_proofss[0].clone(); 2];
    sixth.parties = vec![2, 1];
    sixth.local_key.h1_h2_n_tilde_vec[0] = sixth.local_key.h1_h2_n_tilde_vec[2].clone();
    sixth.local_key.h1_h2_n_tilde_vec[1] = sixth.local_key.h1_h2_n_tilde_vec[2].clone();
    sixth.local_key.paillier_key_vec[0] = sixth.local_key.paillier_key_vec[1].clone();
    assert_eq!(failure(secp256k1_sign_stage6(sixth)), rejected(Stage::Sign6));
    let mut seventh = seventh_sign_input(&s, 1);
    seventh.ss.swap(0, 1);
    assert_eq!(failure(secp256k1_sign_stage7(seventh)), blamed(Stage::Sign7, 2));
    let mut seventh = seventh_sign_input(&s, 1);
    seventh.homo_elgamal_proofs[1].inner.z1 =
        &seventh.homo_elgamal_proofs[1].inner.z1 + Scalar::<Secp256k1>::from(1u16);
    assert_eq!(failure(secp256k1_sign_stage7(seventh)), blamed(Stage::Sign7, 3));
    let mut seventh = seventh_sign_input(&s, 1);
    seventh.completed_offline_stage.local_key.y_sum_s = g.keys[0].pk_vec[0].clone();
    assert_eq!(failure(secp256k1_sign_stage7(seventh)), rejected(Stage::Sign7));
    let shares = shares_of(&s, b"hello");
    let forged = secp256k1_sign_stage9(Secp256k1SignStage9Input {
        local_signature: shares[0].local_signature.clone(),
        partial_signatures: vec![shares[0].partial_signature.clone()],
    });
    assert_eq!(failure(forged), rejected(Stage::Sign9));
    let cancelled = secp256k1_sign_stage9(Secp256k1SignStage9Input {
        local_signature: shares[0].local_signature.clone(),
        partial_signatures: vec![CurveScalar {
            inner: Scalar::<Secp256k1>::zero() - &shares[0].partial_signature.inner,
        }],
    });
    assert_eq!(failure(cancelled), rejected(Stage::Sign9));
    let mut pointless = shares[0].local_signature.clone();
    pointless.r_point = CurvePoint { inner: Point::<Secp256k1>::zero() };
    let refused = secp256k1_sign_stage9(Secp256k1SignStage9Input {
        local_signature: pointless,
        partial_signatures: vec![shares[1].partial_signature.clone()],
    });
    assert_eq!(failure(refused), malformed(Stage::Sign9));
    let mut stage = completed(&s, 0);
    stage.r = CurvePoint { inner: Point::<Secp256k1>::zero() };
    let refused = secp256k1_sign_stage8(Secp256k1SignStage8Input {
        completed_offline_stage: stage,
        message: b"hello".to_vec(),
    });
    assert_eq!(failure(refused), malformed(Stage::Sign8));
    let share = &shares[0].local_signature;
    assert_eq!(share.m, BigInt::from_bytes(b"hello"));
    assert_eq!(share.y.inner, g.keys[0].y_sum_s.inner);
    assert_eq!(share.r_point.inner, s.fifth[0].r.inner);
    assert_eq!(shares[0].partial_signature.inner, share.s_i.inner);
    let m = Scalar::<Secp256k1>::from(&BigInt::from_bytes(b"hello"));
    let expected = m * &s.first[0].sign_key.k_i.inner + &share.r.inner * &s.third[0].sigma_i.inner;
    assert_eq!(share.s_i.inner, expected);
}

#[test]
fn signing_refuses_signers_that_do_not_fit() {
    let g = run_keygen(1, 3);
    let first = |index: u16, parties: Vec<u16>, key: LocalKey| {
        secp256k1_sign_stage1(Secp256k1SignStage1Input { index, parties, local_key: key })
    };
    let key = g.keys[0].clone();
    assert_eq!(failure(first(0, vec![1, 2], key.clone())), shape(Stage::Sign1));
    assert_eq!(failure(first(3, vec![1, 2], key.clone())), shape(Stage::Sign1));
    assert_eq!(failure(first(1, vec![1], key.clone())), shape(Stage::Sign1));
    assert_eq!(failure(first(1, vec![1, 1], key.clone())), shape(Stage::Sign1));
    assert_eq!(failure(first(1, vec![1, 0], key.clone())), shape(Stage::Sign1));
    assert_eq!(failure(first(1, vec![1, 4], key.clone())), shape(Stage::Sign1));
    let mut broken = key.clone();
    broken.paillier_key_vec.pop();
    assert_eq!(failure(first(1, vec![1, 2], broken)), malformed(Stage::Sign1));
    let mut broken = key.clone();
    broken.t = 3;
    assert_eq!(failure(first(1, vec![1, 2], broken)), malformed(Stage::Sign1));
    let zero = BigInt::from(0);
    let mut broken = key.clone();
    broken.paillier_key_vec[1].n = zero.clone();
    broken.paillier_key_vec[1].nn = zero.clone();
    assert_eq!(failure(first(1, vec![1, 2], broken)), malformed(Stage::Sign1));
    let mut broken = key.clone();
    broken.paillier_key_vec[2].nn = &broken.paillier_key_vec[2].nn + BigInt::from(1);
    assert_eq!(failure(first(1, vec![1, 2], broken)), malformed(Stage::Sign1));
    let mut broken = key.clone();
    broken.paillier_key_vec[0] = broken.paillier_key_vec[1].clone();
    assert_eq!(failure(first(1, vec![1, 2], broken)), malformed(Stage::Sign1));
    let mut broken = key.clone();
    broken.paillier_dk.q = broken.paillier_dk.p.clone();
    assert_eq!(failure(first(1, vec![1, 2], broken)), malformed(Stage::Sign1));
    let mut broken = key.clone();
    broken.paillier_dk.p = BigInt::from(1);
    assert_eq!(failure(first(1, vec![1, 2], broken)), malformed(Stage::Sign1));
    let mut broken = key.clone();
    broken.h1_h2_n_tilde_vec[2].N = zero.clone();
    assert_eq!(failure(first(1, vec![1, 2], broken)), malformed(Stage::Sign1));
    let mut broken = key.clone();
    broken.h1_h2_n_tilde_vec[1].g = zero.clone();
    assert_eq!(failure(first(1, vec![1, 2], broken)), malformed(Stage::Sign1));
    let mut broken = key.clone();
    broken.h1_h2_n_tilde_vec[0].ni = broken.h1_h2_n_tilde_vec[0].N.clone();
    assert_eq!(failure(first(1, vec![1, 2], broken)), malformed(Stage::Sign1));
    let mut broken = key.clone();
    broken.h1_h2_n_tilde_vec[0].N = BigInt::from(0) - &broken.h1_h2_n_tilde_vec[0].N;
    assert_eq!(failure(first(1, vec![1, 2], broken)), malformed(Stage::Sign1));
    let s = run_to_third(&g.keys, &[1, 2]);
    let mut degenerate = third_sign_input(&s, 0);
    degenerate.local_key.paillier_dk.q = degenerate.local_key.paillier_dk.p.clone();
    assert_eq!(failure(secp256k1_sign_stage3(degenerate)), malformed(Stage::Sign3));
    let mut degenerate = second_sign_input(&s, 0);
    degenerate.local_key.paillier_key_vec[1].n = zero.clone();
    degenerate.local_key.paillier_key_vec[1].nn = zero.clone();
    assert_eq!(failure(secp256k1_sign_stage2(degenerate)), malformed(Stage::Sign2));
    let mut degenerate = sixth_sign_input_after(&s, 0);
    degenerate.local_key.paillier_key_vec[1].nn = zero.clone();
    assert_eq!(failure(secp256k1_sign_stage6(degenerate)), malformed(Stage::Sign6));
    let mut degenerate = sixth_sign_input_after(&s, 0);
    degenerate.local_key.h1_h2_n_tilde_vec[0].N = zero.clone();
    assert_eq!(failure(secp256k1_sign_stage6(degenerate)), malformed(Stage::Sign6));
    let mut broken = key.clone();
    broken.i = 0;
    assert_eq!(failure(first(1, vec![1, 2], broken)), malformed(Stage::Sign1));
    let mut second = second_sign_input(&s, 0);
    second.m_as.pop();
    assert_eq!(failure(secp256k1_sign_stage2(second)), malformed(Stage::Sign2));
    let mut second = second_sign_input(&s, 0);
    second.index = 0;
    assert_eq!(failure(secp256k1_sign_stage2(second)), shape(Stage::Sign2));
    let mut third = third_sign_input(&s, 0);
    third.betas.clear();
    assert_eq!(failure(secp256k1_sign_stage3(third)), malformed(Stage::Sign3));
    let mut third = third_sign_input(&s, 0);
    third.parties = vec![2, 2];
    assert_eq!(failure(secp256k1_sign_stage3(third)), shape(Stage::Sign3));
    let mut fourth = fourth_sign_input(&s);
    fourth.parties = vec![];
    assert_eq!(failure(secp256k1_sign_stage4(fourth)), shape(Stage::Sign4));
    let mut fourth = fourth_sign_input(&s);
    fourth.parties = vec![0, 1];
    assert_eq!(failure(secp256k1_sign_stage4(fourth)), shape(Stage::Sign4));
    let mut fourth = fourth_sign_input(&s);
    fourth.deltas.pop();
    assert_eq!(failure(secp256k1_sign_stage4(fourth)), malformed(Stage::Sign4));
    let delta_inv = secp256k1_sign_stage4(fourth_sign_input(&s)).unwrap().delta_inv;
    let fifth = Secp256k1SignStage5Input {
        index: 1,
        parties: vec![1, 2],
        local_key: key.clone(),
        sign_key: s.first[0].sign_key.clone(),
        m_a: s.first[0].m_a.clone(),
        m_b_gammas: vec![],
        bc1s: s.first.iter().map(|o| o.bc1.clone()).collect(),
        delta_inv,
        decom1s: s.first.iter().map(|o| o.decom1.clone()).collect(),
    };
    assert_eq!(failure(secp256k1_sign_stage5(fifth.clone())), malformed(Stage::Sign5));
    let mut wrong = fifth.clone();
    wrong.index = 3;
    assert_eq!(failure(secp256k1_sign_stage5(wrong)), shape(Stage::Sign5));
    let sixth = Secp256k1SignStage6Input {
        index: 1,
        parties: vec![1, 2],
        local_key: key.clone(),
        m_as: vec![],
        t_i: s.third[0].t_i.clone(),
        l_i: s.third[0].l_i.clone(),
        sigma_i: s.third[0].sigma_i.clone(),
        r: s.third[0].t_i.clone(),
        r_dashes: vec![],
        phase5_proofss: vec![],
    };
    assert_eq!(failure(secp256k1_sign_stage6(sixth.clone())), malformed(Stage::Sign6));
    let mut wrong = sixth.clone();
    wrong.parties = vec![1, 2, 2];
    assert_eq!(failure(secp256k1_sign_stage6(wrong)), shape(Stage::Sign6));
    let seventh = Secp256k1SignStage7Input {
        ss: vec![],
        homo_elgamal_proofs: vec![],
        parties: vec![1, 2],
        completed_offline_stage: CompletedOfflineStage {
            index: 1,
            local_key: key.clone(),
            sign_key: s.first[0].sign_key.clone(),
            ts: vec![],
            r: s.third[0].t_i.clone(),
            sigma_i: s.third[0].sigma_i.clone(),
        },
    };
    assert_eq!(failure(secp256k1_sign_stage7(seventh.clone())), malformed(Stage::Sign7));
    let mut wrong = seventh.clone();
    wrong.completed_offline_stage.index = 0;
    assert_eq!(failure(secp256k1_sign_stage7(wrong)), shape(Stage::Sign7));
}
