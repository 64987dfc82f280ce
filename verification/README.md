# corvopay

The payment-gateway domain of CorvoPay, verified with Verus.

- `src/domain`: value objects with their invariants — `Amount` (cents between
  1 and 100 000 000), `Email`, `Name`, `Document` (CPF/CNPJ with check digits),
  `Payer`, `GatewayAttemptId`, payment methods and `PaymentStatus` normalisation.
- `src/gateways`: gateway errors and the Mercado Pago integration — its
  static info, the ISO 8601 expiration format and `MpPixMapper::to_request`,
  which builds a PIX order from a payment intent.
- `src/text.rs`: trimming, digits, decimal rendering and UTF-8 lengths, each
  proved against a specification.
- `app/`: serde, thiserror and chrono glue (JSON copies of the types, error
  display), which Verus does not see.
- `tests/`: the behaviour checked on concrete values.
