# srun-auto-dial

A client for the Srun campus-network portal with a REST API, able to log in
over a local interface, over temporary macvlan interfaces with chosen MAC
addresses, and in batches with random MAC addresses.

The crate is written in Verus. `src/` is the verified library: every decision
of the service is a function with a contract, and the properties the service
relies on are stated as proof functions.

- `src/config.rs`: configuration defaults and validation.
- `src/error.rs`: the error type and what the REST API reports for each error.
- `src/srun/`: the portal's request parameters, its Base64 variant, and how its
  replies are read.
- `src/net/`: DHCP client messages, the Discover/Offer/Request/Ack exchange as
  a state machine, lease checks, and the raw Ethernet/IPv4/UDP frames.
- `src/service/`: input checks, MAC addresses and temporary interface names,
  the credentials file, batch planning, the order of a portal operation, the
  life of a temporary interface, and the interface listing.
- `src/api/`: API-key checks, request validation and the response envelope.

`tests/` exercises the library on concrete values. `app/` holds the runtime
around it: configuration files, the HTTP server, the portal's HTTP exchanges,
raw-socket DHCP and the service that sequences them. The portal's hashing and
info encryption and the netlink link operations are supplied to it through the
traits in `app/support.rs`.
