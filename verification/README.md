# apns_h2

Builders and JSON payloads for Apple Push Notification service requests,
written in Verus and verified.

- `src/json.rs`: JSON values and their compact text, with proofs that string
  literals and decimal numbers read back as what was written.
- `src/request/`: the notification builders (`DefaultNotificationBuilder`,
  `WebNotificationBuilder`), the `aps` dictionary, and payloads with custom
  data kept in key order. Each builder method states how the builder's model
  changes; `build` and the payload's `json_string` state the exact text.
- `src/pkcs12.rs`: reading a PKCS#12 bundle into PEM certificates and key,
  through `p12-keystore` and `pem`.
- `app/`: the serde side (values that implement `Serialize` as custom data,
  floats as volumes, serde adapters and derive-carrying copies of types).
