# isrbe

Resource management for a Natural Law / Resource Based Economy: resources,
their parameters, the locations that hold them, and transformations that move
resources and make new ones from their dependencies.

Layout:

- `src/` — the library, with its proofs: the lookup catalog (quantities,
  resource and transformation types), row collection, parameter values and
  rules, unit resolution of locations and transformation lines, and the
  machines that decide how a resource is moved (`ResMoveAuto`), how it is
  manufactured from its dependencies (`ResManufacture`) and how an order is
  filled (`PlaceOrder`). Amounts and coordinates are a type parameter `N`;
  the application uses `f64`.
- `app/` — the web application around it: Rocket routes and Tera templates,
  MySQL queries, and the floating-point checks on amounts. It runs the
  library's machines, carrying out each request against the database.
- `tests/` — tests of the library on concrete values.
