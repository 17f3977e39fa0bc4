# sr25519_ecies

ECIES over Ristretto255 with sr25519 keys, and the viewing keys that go with it, written in Verus.

A message is encrypted to a public key. The owner of that key decrypts it with the secret key or
with an incoming viewing key; the sender decrypts it again with an outgoing viewing key. Viewing
keys are derived one-way from the secret key and cannot sign.

## What is proved

* The exact bytes of a message, and the exact outcome of each decryption with every error, over the
  cryptographic primitives.
* Whoever owns the recipient's key reads the plaintext, and so does the sender, unless the
  ephemeral secret is zero, in which case nobody does.
* What decrypts to a plaintext is that plaintext, sealed under the shared secret.
* No two scalars share a public key.
* The key exchange of a decryption is called only with the accepted key in front of the message.
* Secret keys and viewing keys hold zeros when they go out of scope.
* Serialized keys read back as the same key, unless they were erased before, and no other bytes
  read as that key.
* The laws between the operations, in `src/laws.rs`: what each kind of key reads, that the recipient
  ignores the sender's part, that the sender's key shows in the last bytes only, that a wrapped
  secret moved to another message is refused where nothing is forged, that the derivations have
  separate transcripts, and that each transcript determines its inputs.

## What is trusted

Point arithmetic (curve25519-dalek), transcripts (merlin), the cipher (chacha20poly1305),
comparison (subtle), erasure (zeroize) and the randomness of the operating system (rand_core) stand
behind the small functions of `curve`, `transcript`, `aead` and `secret`. The doc comment of each
says what is claimed of the function that it calls.

How hard it is to forge or read a message without the key is not stated: that is a property of the
primitives.

## Layout

* `src/`: the verified library.
* `tests/`: tests against the real cryptographic crates.
* `app/`: implementations of the traits of other crates (`Debug`, `Display`, `ConstantTimeEq`,
  `Zeroize`), and key generation from a given source of randomness.
