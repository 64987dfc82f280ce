use corvopay::domain::error::ValidationError;
use corvopay::domain::gateway::gateway::GatewayName;
use corvopay::domain::value_objects::amount::Amount;
use corvopay::domain::value_objects::customer::document::{validar_cnpj, validar_cpf, Document, DocumentType};
use corvopay::domain::value_objects::customer::email::Email;
use corvopay::domain::value_objects::customer::name::Name;
use corvopay::domain::value_objects::customer::payer::Payer;
use corvopay::domain::value_objects::gateway_attempt_id::GatewayAttemptId;
use corvopay::domain::value_objects::payment_status::PaymentStatus;
use corvopay::error::AppError;
use corvopay::gateways::error::{GatewayError, GatewayResultExt};
use corvopay::gateways::mercado_pago::utils::seconds_to_iso8601;

const CPF: &str = "529.982.247-25";
const CPF_DIGITS: &str = "52998224725";
const CNPJ: &str = "11.222.333/0001-81";
const CNPJ_DIGITS: &str = "11222333000181";

// ── Documents ──────────────────────────────────────────

#[test]
fn mask_does_not_change_the_document() {
    let masked = Document::new(CPF, DocumentType::Cpf).unwrap();
    let plain = Document::new(CPF_DIGITS, DocumentType::Cpf).unwrap();
    assert_eq!(masked, plain);
    let masked = Document::new(CNPJ, DocumentType::Cnpj).unwrap();
    let plain = Document::new(CNPJ_DIGITS, DocumentType::Cnpj).unwrap();
    assert_eq!(masked, plain);
    assert!(Document::new("529.982.247-26", DocumentType::Cpf).is_err());
    assert!(Document::new("52998224726", DocumentType::Cpf).is_err());
}

#[test]
fn document_is_accepted_again_from_its_own_number() {
    for (n, t) in [(CPF, DocumentType::Cpf), (CNPJ, DocumentType::Cnpj)] {
        let d = Document::new(n, t).unwrap();
        let again = Document::new(d.number(), *d.document_type()).unwrap();
        assert_eq!(again, d);
    }
}

#[test]
fn a_number_is_never_both_cpf_and_cnpj() {
    for n in [CPF, CPF_DIGITS, CNPJ, CNPJ_DIGITS, "40134881087"] {
        assert!(!(validar_cpf(n).is_ok() && validar_cnpj(n).is_ok()));
    }
}

#[test]
fn cpf_check_digits() {
    assert_eq!(validar_cpf("401.348.810-87"), Ok(()));
    assert_eq!(validar_cpf("401.348.810-78"), Err(ValidationError::InvalidDocument));
    assert_eq!(validar_cpf("000.000.000-00"), Err(ValidationError::InvalidDocument));
    assert_eq!(validar_cpf("5299822472"), Err(ValidationError::InvalidDocument));
    assert_eq!(validar_cpf("529982247250"), Err(ValidationError::InvalidDocument));
}

#[test]
fn cnpj_check_digits() {
    assert_eq!(validar_cnpj(CNPJ), Ok(()));
    assert_eq!(validar_cnpj("11.222.333/0001-18"), Err(ValidationError::InvalidDocument));
    assert_eq!(validar_cnpj("00000000000000"), Err(ValidationError::InvalidDocument));
    assert_eq!(validar_cnpj("1122233300018"), Err(ValidationError::InvalidDocument));
}

#[test]
fn document_type_accepts_only_cpf_and_cnpj() {
    assert_eq!(DocumentType::new("\tCNPJ\n"), Ok(DocumentType::Cnpj));
    assert_eq!(DocumentType::new("cnpjx"), Err(ValidationError::InvalidDocument));
    assert_eq!(DocumentType::new("c p f"), Err(ValidationError::InvalidDocument));
}

// ── Names and e-mails ──────────────────────────────────

#[test]
fn name_is_accepted_again_from_its_own_text() {
    let n = Name::new("  Maria Souza \t").unwrap();
    let again = Name::new(n.as_str()).unwrap();
    assert_eq!(again, n);
    assert_eq!(again.as_str(), "Maria Souza");
}

#[test]
fn name_length_counts_utf8_bytes() {
    assert!(Name::new("ãã").is_ok()); // 4 bytes
    assert_eq!(Name::new("ã"), Err(ValidationError::InvalidName)); // 2 bytes
    assert!(Name::new(&"ã".repeat(60)).is_ok()); // 120 bytes
    assert!(Name::new(&"ã".repeat(61)).is_err()); // 122 bytes
}

#[test]
fn email_ignores_surrounding_space() {
    let a = Email::new(" \u{a0}joao@exemplo.com\u{2003}").unwrap();
    let b = Email::new("joao@exemplo.com").unwrap();
    assert_eq!(a, b);
}

#[test]
fn email_length_counts_utf8_bytes() {
    let ok = format!("{}@exemplo.com", "ã".repeat(121)); // 242 + 12 bytes
    assert!(Email::new(&ok).is_ok());
    let too_long = format!("{}@exemplo.com", "ã".repeat(122)); // 244 + 12 bytes
    assert_eq!(Email::new(&too_long), Err(ValidationError::InvalidEmail));
}

#[test]
fn email_errors() {
    assert_eq!(Email::new("a@b"), Err(ValidationError::InvalidEmail));
    assert_eq!(Email::new("a@.b").map(|e| e.as_str().to_string()), Ok("a@.b".to_string()));
    assert_eq!(Email::new("ÁLVARO@EXEMPLO.COM").unwrap().as_str(), "álvaro@exemplo.com");
}

#[test]
fn payer_reports_the_first_invalid_part() {
    let r = Payer::new("sem-arroba", "Jo", "000", DocumentType::Cpf);
    assert_eq!(r, Err(ValidationError::InvalidEmail));
    let r = Payer::new("a@b.com", "Jo", "000", DocumentType::Cpf);
    assert_eq!(r, Err(ValidationError::InvalidName));
    let r = Payer::new("a@b.com", "Joana", "000", DocumentType::Cpf);
    assert_eq!(r, Err(ValidationError::InvalidDocument));
}

// ── Amounts ────────────────────────────────────────────

#[test]
fn currency_reads_back_to_the_cents() {
    for cents in [1u64, 9, 10, 99, 100, 101, 12_345, 99_999_999, 100_000_000] {
        let text = Amount::new(cents).unwrap().currency();
        let (reais, centavos) = text.split_once('.').unwrap();
        assert_eq!(centavos.len(), 2);
        let back: u64 = reais.parse::<u64>().unwrap() * 100 + centavos.parse::<u64>().unwrap();
        assert_eq!(back, cents);
    }
}

#[test]
fn amount_error_variant() {
    assert_eq!(Amount::new(0).err(), Some(ValidationError::InvalidAmount));
    assert_eq!(Amount::new(u64::MAX).err(), Some(ValidationError::InvalidAmount));
}

// ── Durations ──────────────────────────────────────────

#[test]
fn iso8601_durations() {
    assert_eq!(seconds_to_iso8601(0), "P");
    assert_eq!(seconds_to_iso8601(59), "PT59S");
    assert_eq!(seconds_to_iso8601(60), "PT1M");
    assert_eq!(seconds_to_iso8601(86_400), "P1D");
    assert_eq!(seconds_to_iso8601(90_061), "P1DT1H1M1S");
    assert_eq!(seconds_to_iso8601(86_401), "P1DT1S");
    assert_eq!(seconds_to_iso8601(3_660), "PT1H1M");
    assert_eq!(seconds_to_iso8601(u32::MAX), "P49710DT6H28M15S");
}

// ── Statuses ───────────────────────────────────────────

#[test]
fn mercado_pago_never_reports_pending_refund() {
    for s in ["approved", "pending", "pending_refund", "refunded", "PendingRefund", "x"] {
        assert_ne!(
            PaymentStatus::from_gateway(GatewayName::MercadoPago, s),
            PaymentStatus::PendingRefund
        );
    }
}

// ── Identifiers and errors ─────────────────────────────

#[test]
fn attempt_id_text_is_hyphenated_lowercase_hex() {
    let id = GatewayAttemptId::from_bytes([
        0x01, 0x93, 0x2B, 0x4A, 0xF1, 0xC3, 0x7A, 0x2E, 0x9B, 0x1D, 0x3F, 0x4E, 0x5A, 0x6B, 0x7C,
        0x8D,
    ]);
    assert_eq!(id.to_uuid_string(), "01932b4a-f1c3-7a2e-9b1d-3f4e5a6b7c8d");
    assert_eq!(id.as_uuid().as_bytes(), &id.as_bytes());
}

#[test]
fn gateway_err_keeps_a_success() {
    let ok: Result<u8, reqwest::Error> = Ok(7);
    assert!(matches!(ok.gateway_err(GatewayName::MercadoPago), Ok(7)));
}

#[test]
fn app_error_wraps_its_sources() {
    assert!(matches!(
        AppError::from(ValidationError::InvalidName),
        AppError::Validation(ValidationError::InvalidName)
    ));
    assert!(matches!(
        AppError::from(GatewayError::InvalidPaymentMethod),
        AppError::Gateway(GatewayError::InvalidPaymentMethod)
    ));
    let json_err = serde_json::from_str::<u64>("\"x\"").unwrap_err();
    assert!(matches!(AppError::from(json_err), AppError::Serde(_)));
}
