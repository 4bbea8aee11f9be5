# splat_interact

The verified core of a viewer extension that shows 3D Gaussian splats and streams the user's
viewpoint to a websocket server.

- `src/math.rs`: single-precision numbers as bit patterns, compared as IEEE 754 numbers.
- `src/interact/`: the recorded viewpoint, the state machine of the websocket thread, and the opening
  and closing of connections. The `*_laws.rs` files state what holds of whole runs.
- `src/gaussians/`: Gaussians and how they are assembled from logged components, the collection of
  the Gaussians of every visible entity, the buffers that each pipeline is bound to, and the plan of a
  frame on the GPU.
- `tests/`: the behaviour on concrete values.
- `app/`: the thread, the websocket and the GPU calls around the core. The core asks for one action
  at a time, or takes functions that create resources.

The core trusts one outside function, `url::Url::parse`, through `parse_url` in
`src/interact/address.rs`.
