# rs-ecommerce (verified core)

The rules of an e-commerce backend (storefront, admin and operations),
written in Verus with their contracts proved.

- `src/` is the library. Each module holds one area of the shop's rules:
  `auction`, `cart`, `checkout`, `inventory`, `product`, `customer`,
  `identity`, `session`, `auth`, `routes`, `audit`, `pages`, `media`,
  `digital`, `storage`, `search`, `setup`, `sync`, `email`, `metafields`,
  `request`, `context`, `paging`, `errors` and `status`, on top of `text`,
  `numbers` and `time`. Calls into other crates
  (SHA-256, Argon2, `serde_json`, `chrono`, `uuid`, URL parsing,
  `str::to_lowercase`, `str::parse::<IpAddr>`)
  sit behind small trusted wrappers whose contracts say what is assumed.
- `app/` is the HTTP edge: configuration from the environment, the request
  middlewares (correlation id, caller identity from bearer tokens and key
  sets, the permission each route needs), access-token signing and the
  server.
- `tests/` runs the library on concrete values.
