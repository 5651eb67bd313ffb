# license_hub

The verified core of a licence-management service: apps and their
registration codes, device validation of codes, unified payments over WeChat
Pay and Alipay, access control, accounts and a file-browser listing.

- `src/` is the library, written in Verus. Every public function states what
  it returns in its `ensures`; the `law_*` proof functions state the
  properties that hold across calls (how a code is bound to a device, how a
  count code is used up, how expiry behaves, how paths are normalised, ...).
  The few calls into other code (`bcrypt`, `uuid`, the system clock of `std`, and
  two `std` string operations) stand behind small trusted wrappers whose
  contracts are documented where they are declared.
- `tests/` runs the library on concrete values.
- `app/` is a small command-line front end over a JSON store: it reads
  requests, performs the lookups, writes, token handling and the policy
  store's answers, and lets the library take the decisions (code
  validation, folder listing, login, registration, password changes,
  access checks, and the payment orders, queries, closes and
  notifications). The payment providers' clients are not part of it, so
  it prints the provider call the library chose. Amounts in yuan text,
  which go through floating point, are converted there.
