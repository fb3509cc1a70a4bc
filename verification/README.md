# rrr_proxy

A UDP/TCP port-allocating proxy. An HTTP service hands out local proxy ports
in front of a target address for a session, a task owns the running proxies,
and the proxy registers itself with a registration service over a websocket.

The decisions are a verified library under `src/`:

- `decimal`: reading port and setting text as unsigned decimal numbers, and
  writing numbers back as text, with the round trip proved.
- `table`: a small association table keyed by views, used for every map the
  service keeps.
- `proxy`: sessions and endpoints; the allocation of udp, tcp and ssl proxies
  as a sequence of requests to the proxy task; the proxy task's handling of
  create, delete and end messages; the loops of the tcp and udp proxies.
- `manager`: the answers of the HTTP handlers, the registration retries and
  heartbeat, and the messages exchanged with the registration service.
- `consts`: the settings and their defaults.

`app/` holds the program around it: sockets, channels, the HTTP server, the
websocket client, metrics, signals and JSON.
