# ternary_hmm

Hidden Markov models whose states and emissions are trits {-1, 0, +1}.

- `src/` is the verified library (Verus): the `Ternary` alphabet and its index
  encoding, the order in which model parameters and queries are refused, the
  arg-max rules that pick a state, and the Viterbi back-pointer walk.
- `app/` holds `TernaryHMM`, whose `f64` parameters and forward, backward,
  Viterbi and Baum-Welch recursions are ordinary Rust that calls the library for
  every decision that does not read a probability.
- `tests/` exercises the library.
